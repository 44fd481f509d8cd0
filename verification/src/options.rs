//! The options of one run, as the command line gives them.

use vstd::prelude::*;

verus! {

/// The options of one run. A value that was not given is `None`, an absent
/// flag is `false`.
#[derive(Debug, PartialEq, Eq)]
pub struct Options {
    /// The address to connect to.
    pub url: Option<String>,
    /// The names of the channels to ask the dispatcher for.
    pub channels: Vec<String>,
    /// Pull from the source in place of subscribing to it.
    pub pull: bool,
    /// Run against a debug source started for this run.
    pub debug: bool,
    /// The number of messages to receive.
    pub messages: Option<u32>,
    /// The running time in milliseconds.
    pub time: Option<i64>,
    /// The print level.
    pub level: Option<u64>,
    /// The number of elements of an array that are printed.
    pub size: Option<usize>,
}

/// The mathematical value of [`Options`].
pub struct OptionsModel {
    pub url: Option<Seq<char>>,
    pub channels: Seq<Seq<char>>,
    pub pull: bool,
    pub debug: bool,
    pub messages: Option<u32>,
    pub time: Option<i64>,
    pub level: Option<u64>,
    pub size: Option<usize>,
}

impl View for Options {
    type V = OptionsModel;

    open spec fn view(&self) -> OptionsModel {
        OptionsModel {
            url: self.url.deep_view(),
            channels: self.channels.deep_view(),
            pull: self.pull,
            debug: self.debug,
            messages: self.messages,
            time: self.time,
            level: self.level,
            size: self.size,
        }
    }
}

impl OptionsModel {
    /// Whether the options say where the messages come from: an address,
    /// channel names, or the debug source.
    pub open spec fn has_target(self) -> bool {
        self.url is Some || self.debug || self.channels.len() > 0
    }
}

} // verus!
