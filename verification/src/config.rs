//! The validated configuration of one session.

use vstd::prelude::*;
use crate::discipline::SocketDiscipline;
use crate::endpoint::{EndpointSource, SourceModel};
use crate::error::{ErrorModel, SessionError};
use crate::options::{Options, OptionsModel};

verus! {

/// The print level of a run that names none.
pub const DEFAULT_LEVEL: u64 = 3;

/// The array print size of a run that names none.
pub const DEFAULT_SIZE: usize = 10;

/// The number of messages of a run that names neither a number of messages
/// nor a running time.
pub const DEFAULT_MESSAGES: u32 = 1;

/// The mathematical value of [`SessionConfig`].
pub struct ConfigModel {
    pub discipline: SocketDiscipline,
    pub debug: bool,
    pub level: u64,
    pub size: usize,
    pub source: SourceModel,
    pub messages: Option<u32>,
    pub time: Option<i64>,
}

impl ConfigModel {
    /// What holds of every configuration: the session consumes, it is bounded
    /// by a number of messages or by a running time, and its source agrees
    /// with the debug flag. The dispatcher is asked only outside debug mode and
    /// for at least one channel; the debug source is the target only in debug
    /// mode.
    pub open spec fn wf(self) -> bool {
        &&& self.discipline == SocketDiscipline::Subscribe || self.discipline
            == SocketDiscipline::Pull
        &&& self.messages is Some || self.time is Some
        &&& match self.source {
            SourceModel::Literal { .. } => true,
            SourceModel::Dispatcher { channels } => !self.debug && channels.len() > 0,
            SourceModel::DebugLoopback => self.debug,
        }
    }

    /// The configuration that the options describe.
    pub open spec fn of(options: OptionsModel) -> ConfigModel {
        ConfigModel {
            discipline: if options.pull {
                SocketDiscipline::Pull
            } else {
                SocketDiscipline::Subscribe
            },
            debug: options.debug,
            level: match options.level {
                Some(level) => level,
                None => DEFAULT_LEVEL,
            },
            size: match options.size {
                Some(size) => size,
                None => DEFAULT_SIZE,
            },
            source: SourceModel::of(options),
            messages: if options.messages is None && options.time is None {
                Some(DEFAULT_MESSAGES)
            } else {
                options.messages
            },
            time: options.time,
        }
    }
}

/// The configuration of one session. It is made once, from the options, and
/// never changes.
#[derive(Debug, PartialEq, Eq)]
pub struct SessionConfig {
    discipline: SocketDiscipline,
    debug: bool,
    level: u64,
    size: usize,
    source: EndpointSource,
    messages: Option<u32>,
    time: Option<i64>,
}

impl View for SessionConfig {
    type V = ConfigModel;

    closed spec fn view(&self) -> ConfigModel {
        ConfigModel {
            discipline: self.discipline,
            debug: self.debug,
            level: self.level,
            size: self.size,
            source: self.source@,
            messages: self.messages,
            time: self.time,
        }
    }
}

impl Clone for SessionConfig {
    fn clone(&self) -> (copy: SessionConfig)
        ensures
            copy@ == self@,
    {
        proof {
            use_type_invariant(self);
        }
        SessionConfig {
            discipline: self.discipline,
            debug: self.debug,
            level: self.level,
            size: self.size,
            source: self.source.clone(),
            messages: self.messages,
            time: self.time,
        }
    }
}

impl SessionConfig {
    /// Every configuration is well formed.
    #[verifier::type_invariant]
    pub open spec fn valid(self) -> bool {
        self@.wf()
    }

    /// Validates the options. They are refused when they name no target: no
    /// address, no channel and no debug mode. Otherwise the configuration
    /// takes each value that was given and the default for each that was not.
    pub fn from_options(options: Options) -> (outcome: Result<SessionConfig, SessionError>)
        ensures
            match outcome {
                Ok(config) => options@.has_target() && config@ == ConfigModel::of(options@)
                    && config@.wf(),
                Err(error) => !options@.has_target() && error@ == ErrorModel::NoTarget,
            },
    {
        let Options { url, channels, pull, debug, messages, time, level, size } = options;
        if !debug && url.is_none() && channels.len() == 0 {
            return Err(SessionError::NoTarget);
        }
        let source = match url {
            Some(address) => EndpointSource::Literal { address },
            None => if debug {
                EndpointSource::DebugLoopback
            } else {
                EndpointSource::Dispatcher { channels }
            },
        };
        let messages = if messages.is_none() && time.is_none() {
            Some(DEFAULT_MESSAGES)
        } else {
            messages
        };
        Ok(
            SessionConfig {
                discipline: if pull {
                    SocketDiscipline::Pull
                } else {
                    SocketDiscipline::Subscribe
                },
                debug,
                level: match level {
                    Some(level) => level,
                    None => DEFAULT_LEVEL,
                },
                size: match size {
                    Some(size) => size,
                    None => DEFAULT_SIZE,
                },
                source,
                messages,
                time,
            },
        )
    }

    /// The discipline of the receiving socket.
    pub fn discipline(&self) -> (discipline: SocketDiscipline)
        ensures
            discipline == self@.discipline,
    {
        self.discipline
    }

    /// Whether a debug source is started for the run.
    pub fn debug(&self) -> (debug: bool)
        ensures
            debug == self@.debug,
    {
        self.debug
    }

    /// The print level.
    pub fn level(&self) -> (level: u64)
        ensures
            level == self@.level,
    {
        self.level
    }

    /// The number of elements of an array that are printed.
    pub fn size(&self) -> (size: usize)
        ensures
            size == self@.size,
    {
        self.size
    }

    /// What the endpoint is resolved from.
    pub fn source(&self) -> (source: &EndpointSource)
        ensures
            source@ == self@.source,
    {
        &self.source
    }

    /// The number of messages after which the receive loop stops by itself.
    pub fn messages(&self) -> (messages: Option<u32>)
        ensures
            messages == self@.messages,
    {
        self.messages
    }

    /// The running time in milliseconds. A value that is not positive stands
    /// for a run without end.
    pub fn time(&self) -> (time: Option<i64>)
        ensures
            time == self@.time,
    {
        self.time
    }
}

} // verus!
