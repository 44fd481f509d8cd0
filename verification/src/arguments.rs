//! The command line as text, and its numbers.

use vstd::prelude::*;
use crate::error::{ErrorModel, SessionError};
use crate::options::{Options, OptionsModel};

verus! {

/// The values of the command line before any number is read. A value that
/// was not given is `None`, an absent flag is `false`.
#[derive(Debug, PartialEq, Eq)]
pub struct Arguments {
    /// The address to connect to.
    pub url: Option<String>,
    /// The names of the channels to ask the dispatcher for.
    pub channels: Vec<String>,
    /// Pull from the source in place of subscribing to it.
    pub pull: bool,
    /// Run against a debug source started for this run.
    pub debug: bool,
    /// The number of messages to receive, as text.
    pub messages: Option<String>,
    /// The running time in milliseconds, as text.
    pub time: Option<String>,
    /// The print level, as text.
    pub level: Option<String>,
    /// The number of elements of an array that are printed, as text.
    pub size: Option<String>,
}

/// The mathematical value of [`Arguments`].
pub struct ArgumentsModel {
    pub url: Option<Seq<char>>,
    pub channels: Seq<Seq<char>>,
    pub pull: bool,
    pub debug: bool,
    pub messages: Option<Seq<char>>,
    pub time: Option<Seq<char>>,
    pub level: Option<Seq<char>>,
    pub size: Option<Seq<char>>,
}

impl View for Arguments {
    type V = ArgumentsModel;

    open spec fn view(&self) -> ArgumentsModel {
        ArgumentsModel {
            url: self.url.deep_view(),
            channels: self.channels.deep_view(),
            pull: self.pull,
            debug: self.debug,
            messages: self.messages.deep_view(),
            time: self.time.deep_view(),
            level: self.level.deep_view(),
            size: self.size.deep_view(),
        }
    }
}

/// What the standard library reads from a text as a 64-bit signed integer.
pub uninterp spec fn parsed_i64(text: Seq<char>) -> Option<i64>;

/// What the standard library reads from a text as a 32-bit unsigned integer.
pub uninterp spec fn parsed_u32(text: Seq<char>) -> Option<u32>;

/// What the standard library reads from a text as a 64-bit unsigned integer.
pub uninterp spec fn parsed_u64(text: Seq<char>) -> Option<u64>;

/// What the standard library reads from a text as an unsigned integer of
/// pointer width.
pub uninterp spec fn parsed_usize(text: Seq<char>) -> Option<usize>;

/// Calls `str::parse::<i64>`. Trusted: the number that comes back, or its
/// absence where the text is refused, depends on the text alone.
#[verifier::external_body]
fn parse_i64(text: &str) -> (number: Option<i64>)
    ensures
        number == parsed_i64(text@),
{
    text.parse::<i64>().ok()
}

/// Calls `str::parse::<u32>`. Trusted: the number that comes back, or its
/// absence where the text is refused, depends on the text alone.
#[verifier::external_body]
fn parse_u32(text: &str) -> (number: Option<u32>)
    ensures
        number == parsed_u32(text@),
{
    text.parse::<u32>().ok()
}

/// Calls `str::parse::<u64>`. Trusted: the number that comes back, or its
/// absence where the text is refused, depends on the text alone.
#[verifier::external_body]
fn parse_u64(text: &str) -> (number: Option<u64>)
    ensures
        number == parsed_u64(text@),
{
    text.parse::<u64>().ok()
}

/// Calls `str::parse::<usize>`. Trusted: the number that comes back, or its
/// absence where the text is refused, depends on the text alone.
#[verifier::external_body]
fn parse_usize(text: &str) -> (number: Option<usize>)
    ensures
        number == parsed_usize(text@),
{
    text.parse::<usize>().ok()
}

/// The numbers read from the texts of the command line. Each is `None`
/// where its text was not given or is no number of its type.
#[derive(Clone, Copy, Debug, PartialEq, Eq, Structural)]
pub struct Numbers {
    pub time: Option<i64>,
    pub messages: Option<u32>,
    pub level: Option<u64>,
    pub size: Option<usize>,
}

impl ArgumentsModel {
    /// The numbers that the standard library reads from the texts given.
    pub open spec fn numbers(self) -> Numbers {
        Numbers {
            time: match self.time {
                Some(text) => parsed_i64(text),
                None => None,
            },
            messages: match self.messages {
                Some(text) => parsed_u32(text),
                None => None,
            },
            level: match self.level {
                Some(text) => parsed_u64(text),
                None => None,
            },
            size: match self.size {
                Some(text) => parsed_usize(text),
                None => None,
            },
        }
    }

    /// The options that the arguments and their numbers make. A text that
    /// was given and is no number is an error. Where several are none, the
    /// error names the first of them in the order time, messages, level,
    /// size.
    pub open spec fn checked(self, numbers: Numbers) -> Result<OptionsModel, ErrorModel> {
        if self.time is Some && numbers.time is None {
            Err(ErrorModel::InvalidTime { text: self.time->0 })
        } else if self.messages is Some && numbers.messages is None {
            Err(ErrorModel::InvalidMessages { text: self.messages->0 })
        } else if self.level is Some && numbers.level is None {
            Err(ErrorModel::InvalidLevel { text: self.level->0 })
        } else if self.size is Some && numbers.size is None {
            Err(ErrorModel::InvalidSize { text: self.size->0 })
        } else {
            Ok(
                OptionsModel {
                    url: self.url,
                    channels: self.channels,
                    pull: self.pull,
                    debug: self.debug,
                    messages: if self.messages is Some {
                        numbers.messages
                    } else {
                        None
                    },
                    time: if self.time is Some {
                        numbers.time
                    } else {
                        None
                    },
                    level: if self.level is Some {
                        numbers.level
                    } else {
                        None
                    },
                    size: if self.size is Some {
                        numbers.size
                    } else {
                        None
                    },
                },
            )
        }
    }
}

/// The mathematical value of an outcome of reading the arguments.
pub open spec fn outcome_model(outcome: Result<Options, SessionError>) -> Result<
    OptionsModel,
    ErrorModel,
> {
    match outcome {
        Ok(options) => Ok(options@),
        Err(error) => Err(error@),
    }
}

impl Arguments {
    /// Reads the numbers of the arguments with the standard library.
    pub fn numbers(&self) -> (numbers: Numbers)
        ensures
            numbers == self@.numbers(),
    {
        Numbers {
            time: match &self.time {
                Some(text) => parse_i64(text.as_str()),
                None => None,
            },
            messages: match &self.messages {
                Some(text) => parse_u32(text.as_str()),
                None => None,
            },
            level: match &self.level {
                Some(text) => parse_u64(text.as_str()),
                None => None,
            },
            size: match &self.size {
                Some(text) => parse_usize(text.as_str()),
                None => None,
            },
        }
    }

    /// Makes the options from the arguments and the numbers read from them,
    /// or names the first text that is no number.
    pub fn check(self, numbers: Numbers) -> (outcome: Result<Options, SessionError>)
        ensures
            outcome_model(outcome) == self@.checked(numbers),
    {
        let Arguments { url, channels, pull, debug, messages, time, level, size } = self;
        let time = match time {
            Some(text) => match numbers.time {
                Some(number) => Some(number),
                None => {
                    return Err(SessionError::InvalidTime { text });
                },
            },
            None => None,
        };
        let messages = match messages {
            Some(text) => match numbers.messages {
                Some(number) => Some(number),
                None => {
                    return Err(SessionError::InvalidMessages { text });
                },
            },
            None => None,
        };
        let level = match level {
            Some(text) => match numbers.level {
                Some(number) => Some(number),
                None => {
                    return Err(SessionError::InvalidLevel { text });
                },
            },
            None => None,
        };
        let size = match size {
            Some(text) => match numbers.size {
                Some(number) => Some(number),
                None => {
                    return Err(SessionError::InvalidSize { text });
                },
            },
            None => None,
        };
        Ok(Options { url, channels, pull, debug, messages, time, level, size })
    }

    /// Reads the numbers of the arguments and makes the options, or names
    /// the first text that is no number.
    pub fn parse(self) -> (outcome: Result<Options, SessionError>)
        ensures
            outcome_model(outcome) == self@.checked(self@.numbers()),
    {
        let numbers = self.numbers();
        self.check(numbers)
    }
}

} // verus!
