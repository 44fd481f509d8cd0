//! What the controller asks its driver to do, and what the driver reports.

use vstd::prelude::*;
use crate::discipline::SocketDiscipline;
use crate::endpoint::{Endpoint, EndpointModel};
use crate::presenter::PrintPolicy;
use crate::statistics::RunStatistics;

verus! {

/// One piece of outside work. The driver performs it and reports how it went
/// before it is given the next one.
#[derive(Debug, PartialEq, Eq)]
pub enum Action {
    /// Ask the dispatcher for one stream of these channels.
    RequestStream { channels: Vec<String>, disable_compression: bool },
    /// Start the debug source on a local port.
    StartDebugSource { port: u32, discipline: SocketDiscipline, interval_ms: u64 },
    /// Create the receiver of the session on the endpoint.
    OpenReceiver { endpoint: Endpoint },
    /// Start the receive loop in the background. It presents each message by
    /// the policy and stops by itself after `message_bound` messages, if that
    /// is given.
    Run { message_bound: Option<u32>, policy: PrintPolicy, size: usize },
    /// Let the calling thread sleep.
    Sleep { millis: u64 },
    /// Block until the receive loop has stopped by itself.
    AwaitCompletion,
    /// Tell the receive loop to stop.
    Interrupt,
    /// Block until the background thread has ended.
    Join,
    /// Take the snapshot of the statistics, and print the summary if asked.
    Report { print_summary: bool },
    /// Stop the debug source.
    StopDebugSource,
    /// Leave with this exit code. Nothing is running any more.
    Exit { code: i32 },
}

/// The mathematical value of [`Action`].
pub enum ActionModel {
    RequestStream { channels: Seq<Seq<char>>, disable_compression: bool },
    StartDebugSource { port: u32, discipline: SocketDiscipline, interval_ms: u64 },
    OpenReceiver { endpoint: EndpointModel },
    Run { message_bound: Option<u32>, policy: PrintPolicy, size: usize },
    Sleep { millis: u64 },
    AwaitCompletion,
    Interrupt,
    Join,
    Report { print_summary: bool },
    StopDebugSource,
    Exit { code: i32 },
}

impl View for Action {
    type V = ActionModel;

    open spec fn view(&self) -> ActionModel {
        match self {
            Action::RequestStream { channels, disable_compression } => ActionModel::RequestStream {
                channels: channels.deep_view(),
                disable_compression: *disable_compression,
            },
            Action::StartDebugSource { port, discipline, interval_ms } => {
                ActionModel::StartDebugSource {
                    port: *port,
                    discipline: *discipline,
                    interval_ms: *interval_ms,
                }
            },
            Action::OpenReceiver { endpoint } => ActionModel::OpenReceiver { endpoint: endpoint@ },
            Action::Run { message_bound, policy, size } => ActionModel::Run {
                message_bound: *message_bound,
                policy: *policy,
                size: *size,
            },
            Action::Sleep { millis } => ActionModel::Sleep { millis: *millis },
            Action::AwaitCompletion => ActionModel::AwaitCompletion,
            Action::Interrupt => ActionModel::Interrupt,
            Action::Join => ActionModel::Join,
            Action::Report { print_summary } => ActionModel::Report {
                print_summary: *print_summary,
            },
            Action::StopDebugSource => ActionModel::StopDebugSource,
            Action::Exit { code } => ActionModel::Exit { code: *code },
        }
    }
}

impl ActionModel {
    /// Whether the action belongs to teardown.
    pub open spec fn is_teardown(self) -> bool {
        self is Interrupt || self is Join || self is Report || self is StopDebugSource
            || self is Exit
    }

    /// The place of a teardown action in the order of teardown.
    pub open spec fn teardown_rank(self) -> int {
        match self {
            ActionModel::Interrupt => 1,
            ActionModel::Join => 2,
            ActionModel::Report { .. } => 3,
            ActionModel::StopDebugSource => 4,
            ActionModel::Exit { .. } => 5,
            _ => 0,
        }
    }
}

/// How the last action went.
#[derive(Debug, PartialEq, Eq)]
pub enum Event {
    /// It was done.
    Completed,
    /// It could not be done.
    Failed { cause: String },
    /// The dispatcher named this address.
    Resolved { address: String },
    /// The statistics of the session, as they stand.
    Statistics { snapshot: RunStatistics },
}

/// The mathematical value of [`Event`].
pub enum EventModel {
    Completed,
    Failed { cause: Seq<char> },
    Resolved { address: Seq<char> },
    Statistics { snapshot: RunStatistics },
}

impl View for Event {
    type V = EventModel;

    open spec fn view(&self) -> EventModel {
        match self {
            Event::Completed => EventModel::Completed,
            Event::Failed { cause } => EventModel::Failed { cause: cause@ },
            Event::Resolved { address } => EventModel::Resolved { address: address@ },
            Event::Statistics { snapshot } => EventModel::Statistics { snapshot: *snapshot },
        }
    }
}

impl EventModel {
    /// The cause that a failure gives; empty for every other event.
    pub open spec fn cause(self) -> Seq<char> {
        match self {
            EventModel::Failed { cause } => cause,
            _ => Seq::empty(),
        }
    }

    /// The snapshot that the event carries, if it carries one.
    pub open spec fn snapshot(self) -> Option<RunStatistics> {
        match self {
            EventModel::Statistics { snapshot } => Some(snapshot),
            _ => None,
        }
    }
}

impl Event {
    /// Takes the cause out of a failure. Every other event gives an empty one.
    pub fn into_cause(self) -> (cause: String)
        ensures
            cause@ == self@.cause(),
    {
        match self {
            Event::Failed { cause } => cause,
            _ => String::new(),
        }
    }

    /// Returns the snapshot that the event carries, if it carries one.
    pub fn snapshot(&self) -> (snapshot: Option<RunStatistics>)
        ensures
            snapshot == self@.snapshot(),
    {
        match self {
            Event::Statistics { snapshot } => Some(*snapshot),
            _ => None,
        }
    }
}

} // verus!
