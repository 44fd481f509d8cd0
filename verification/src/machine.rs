//! The session controller as a state machine over mathematical values.
//!
//! A transition takes the state and the report on the last action, and gives
//! the next state and the next action. Nothing here does any outside work.

use vstd::prelude::*;
use crate::action::{ActionModel, EventModel};
use crate::config::ConfigModel;
use crate::endpoint::{
    loopback_address, EndpointModel, Provenance, SourceModel, DEBUG_INTERVAL_MS, DEBUG_PORT,
};
use crate::error::{exit_code_of, ErrorModel};
use crate::presenter::{summary_at_level, PrintPolicy};
use crate::statistics::RunStatistics;

verus! {

/// The states of the controller as its users see them.
#[derive(Clone, Copy, Debug, PartialEq, Eq, Structural)]
pub enum Phase {
    /// Nothing has been asked for yet.
    Created,
    /// The endpoint is being resolved and the session set up on it.
    Resolving,
    /// The receive loop runs in the background.
    Running,
    /// The calling thread waits for the receive loop to reach its bound.
    WaitingForBound,
    /// What was started is being stopped.
    TearingDown,
    /// Nothing is running any more.
    Closed,
}

/// The states of the controller, one for each action that can be under way.
#[derive(Clone, Copy, Debug, PartialEq, Eq, Structural)]
pub enum Stage {
    /// Nothing has been asked for yet.
    Created,
    /// The dispatcher has been asked for a stream.
    AwaitingStream,
    /// The debug source is being started.
    AwaitingDebugSource,
    /// The receiver is being created.
    AwaitingReceiver,
    /// The receive loop is being started.
    Starting,
    /// The calling thread sleeps for the running time.
    Sleeping,
    /// The calling thread waits until the receive loop has stopped by itself.
    AwaitingCompletion,
    /// The receive loop is being told to stop.
    Interrupting,
    /// The background thread is being joined.
    Joining,
    /// The statistics are being read.
    Reporting,
    /// The debug source is being stopped.
    StoppingDebugSource,
    /// Nothing is running any more.
    Closed,
}

impl Stage {
    /// The phase that the stage belongs to. While the calling thread sleeps
    /// for the running time the session counts as running: to wait for the
    /// bound is to wait for the number of messages.
    pub open spec fn phase(self) -> Phase {
        match self {
            Stage::Created => Phase::Created,
            Stage::AwaitingStream => Phase::Resolving,
            Stage::AwaitingDebugSource => Phase::Resolving,
            Stage::AwaitingReceiver => Phase::Resolving,
            Stage::Starting => Phase::Running,
            Stage::Sleeping => Phase::Running,
            Stage::AwaitingCompletion => Phase::WaitingForBound,
            Stage::Interrupting => Phase::TearingDown,
            Stage::Joining => Phase::TearingDown,
            Stage::Reporting => Phase::TearingDown,
            Stage::StoppingDebugSource => Phase::TearingDown,
            Stage::Closed => Phase::Closed,
        }
    }

    /// Whether teardown has begun.
    pub open spec fn winding_down(self) -> bool {
        self.phase() == Phase::TearingDown || self.phase() == Phase::Closed
    }
}

/// How long the calling thread sleeps for a running time: that many
/// milliseconds if it is positive, and without end (the longest time there
/// is) if it is not.
pub open spec fn sleep_millis(time: i64) -> u64 {
    if time > 0 {
        time as u64
    } else {
        u64::MAX
    }
}

/// The state of the controller.
pub struct ControllerModel {
    /// The configuration of the session.
    pub config: ConfigModel,
    /// The action under way.
    pub stage: Stage,
    /// The endpoint, once it is resolved.
    pub endpoint: Option<EndpointModel>,
    /// Whether a debug source was started and not yet stopped.
    pub debug_source_active: bool,
    /// Whether the receive session exists and was not yet torn down.
    pub session_open: bool,
    /// The snapshot of the statistics, once teardown has taken it.
    pub statistics: Option<RunStatistics>,
    /// The fatal error of the run, if there is one.
    pub failure: Option<ErrorModel>,
}

impl ControllerModel {
    /// The controller of a session before anything was asked for.
    pub open spec fn created(config: ConfigModel) -> ControllerModel {
        ControllerModel {
            config,
            stage: Stage::Created,
            endpoint: None,
            debug_source_active: false,
            session_open: false,
            statistics: None,
            failure: None,
        }
    }

    /// The exit code of the run as it stands.
    pub open spec fn exit_code(self) -> i32 {
        exit_code_of(self.failure)
    }

    /// The endpoint agrees with the configuration: it has the discipline of
    /// the session, and its address is the one its provenance gives. For a
    /// literal that is the given address, for the debug source the fixed one;
    /// for the dispatcher it is whatever the dispatcher named.
    pub open spec fn endpoint_agrees(self, endpoint: EndpointModel) -> bool {
        &&& endpoint.discipline == self.config.discipline
        &&& endpoint.provenance == self.config.source.provenance()
        &&& match self.config.source {
            SourceModel::Literal { address } => endpoint.address == address,
            SourceModel::Dispatcher { .. } => true,
            SourceModel::DebugLoopback => endpoint.address == loopback_address(),
        }
    }

    /// What holds of every state that a controller reaches.
    pub open spec fn wf(self) -> bool {
        &&& self.config.wf()
        &&& match self.endpoint {
            Some(endpoint) => self.endpoint_agrees(endpoint),
            None => true,
        }
        &&& self.session_open ==> self.failure is None && self.endpoint is Some
            && self.statistics is None
        &&& self.debug_source_active ==> self.config.debug
        &&& match self.stage {
            Stage::Created => self.endpoint is None && !self.debug_source_active
                && !self.session_open && self.statistics is None && self.failure is None,
            Stage::AwaitingStream => self.endpoint is None && !self.debug_source_active
                && !self.session_open && self.statistics is None && self.failure is None
                && self.config.source is Dispatcher,
            Stage::AwaitingDebugSource => self.endpoint is Some && !self.debug_source_active
                && !self.session_open && self.statistics is None && self.failure is None
                && self.config.debug,
            Stage::AwaitingReceiver => self.endpoint is Some && self.debug_source_active
                == self.config.debug && !self.session_open && self.statistics is None
                && self.failure is None,
            Stage::Starting => self.session_open && self.debug_source_active == self.config.debug,
            Stage::Sleeping => self.session_open && self.debug_source_active == self.config.debug
                && self.config.time is Some,
            Stage::AwaitingCompletion => self.session_open && self.debug_source_active
                == self.config.debug && self.config.messages is Some,
            Stage::Interrupting => self.session_open,
            Stage::Joining => self.session_open,
            Stage::Reporting => self.session_open,
            Stage::StoppingDebugSource => self.debug_source_active && !self.session_open,
            Stage::Closed => !self.debug_source_active && !self.session_open,
        }
    }

    /// The action that is under way in a state of teardown.
    pub open spec fn teardown_action(self) -> ActionModel
        recommends
            self.stage.winding_down(),
    {
        match self.stage {
            Stage::Interrupting => ActionModel::Interrupt,
            Stage::Joining => ActionModel::Join,
            Stage::Reporting => ActionModel::Report {
                print_summary: summary_at_level(self.config.level),
            },
            Stage::StoppingDebugSource => ActionModel::StopDebugSource,
            _ => ActionModel::Exit { code: self.exit_code() },
        }
    }

    /// Moves to a stage of teardown and gives its action.
    pub open spec fn enter(self, stage: Stage) -> (ControllerModel, ActionModel)
        recommends
            stage.winding_down(),
    {
        let next = ControllerModel { stage, ..self };
        (next, next.teardown_action())
    }

    /// Goes on with teardown once the session is gone: the debug source is
    /// stopped if one is active, and then the run is over.
    pub open spec fn release(self) -> (ControllerModel, ActionModel) {
        if self.debug_source_active {
            self.enter(Stage::StoppingDebugSource)
        } else {
            self.enter(Stage::Closed)
        }
    }

    /// Begins teardown. A session that exists is interrupted first.
    pub open spec fn wind_down(self) -> (ControllerModel, ActionModel) {
        if self.session_open {
            self.enter(Stage::Interrupting)
        } else {
            self.release()
        }
    }

    /// Records a fatal error and begins teardown.
    pub open spec fn fail(self, error: ErrorModel) -> (ControllerModel, ActionModel) {
        ControllerModel { failure: Some(error), ..self }.wind_down()
    }

    /// Asks for the receiver on the endpoint.
    pub open spec fn open_receiver(self, endpoint: EndpointModel) -> (
        ControllerModel,
        ActionModel,
    ) {
        (
            ControllerModel { stage: Stage::AwaitingReceiver, endpoint: Some(endpoint), ..self },
            ActionModel::OpenReceiver { endpoint },
        )
    }

    /// Goes on once the endpoint is resolved. In debug mode the debug source
    /// is started before the receiver is created; it produces with the
    /// discipline that matches the consuming one.
    pub open spec fn connect(self, endpoint: EndpointModel) -> (ControllerModel, ActionModel) {
        if self.config.debug {
            (
                ControllerModel {
                    stage: Stage::AwaitingDebugSource,
                    endpoint: Some(endpoint),
                    ..self
                },
                ActionModel::StartDebugSource {
                    port: DEBUG_PORT,
                    discipline: self.config.discipline.complement(),
                    interval_ms: DEBUG_INTERVAL_MS,
                },
            )
        } else {
            self.open_receiver(endpoint)
        }
    }

    /// Begins resolution. A literal address and the address of the debug
    /// source are known at once; the dispatcher has to be asked.
    pub open spec fn resolve(self) -> (ControllerModel, ActionModel) {
        match self.config.source {
            SourceModel::Literal { address } => self.connect(
                EndpointModel {
                    address,
                    discipline: self.config.discipline,
                    provenance: Provenance::Literal,
                },
            ),
            SourceModel::DebugLoopback => self.connect(
                EndpointModel {
                    address: loopback_address(),
                    discipline: self.config.discipline,
                    provenance: Provenance::DebugLoopback,
                },
            ),
            SourceModel::Dispatcher { channels } => (
                ControllerModel { stage: Stage::AwaitingStream, ..self },
                ActionModel::RequestStream { channels, disable_compression: true },
            ),
        }
    }

    /// Starts the receive loop on the receiver that was created.
    pub open spec fn run(self) -> (ControllerModel, ActionModel) {
        (
            ControllerModel { stage: Stage::Starting, session_open: true, ..self },
            ActionModel::Run {
                message_bound: self.config.messages,
                policy: PrintPolicy::at_level(self.config.level),
                size: self.config.size,
            },
        )
    }

    /// Waits for the number of messages, if one is set; else begins teardown.
    pub open spec fn await_bound(self) -> (ControllerModel, ActionModel) {
        if self.config.messages is Some {
            (
                ControllerModel { stage: Stage::AwaitingCompletion, ..self },
                ActionModel::AwaitCompletion,
            )
        } else {
            self.wind_down()
        }
    }

    /// Waits for the bounds of the run, the running time first. The two waits
    /// follow each other: neither cuts the other short.
    pub open spec fn wait(self) -> (ControllerModel, ActionModel) {
        match self.config.time {
            Some(time) => (
                ControllerModel { stage: Stage::Sleeping, ..self },
                ActionModel::Sleep { millis: sleep_millis(time) },
            ),
            None => self.await_bound(),
        }
    }

    /// The step of the controller: the state and the action that follow when
    /// `event` reports on the action under way.
    ///
    /// Only three reports can fail a run: the dispatcher naming no address,
    /// the debug source not starting, and the receiver not being created.
    /// Every other report moves the controller on whatever it says, so that
    /// each step of teardown is taken even when the one before had trouble.
    pub open spec fn transition(self, event: EventModel) -> (ControllerModel, ActionModel) {
        match self.stage {
            Stage::Created => self.resolve(),
            Stage::AwaitingStream => match event {
                EventModel::Resolved { address } => self.connect(
                    EndpointModel {
                        address,
                        discipline: self.config.discipline,
                        provenance: Provenance::Dispatcher,
                    },
                ),
                _ => self.fail(ErrorModel::Dispatcher { cause: event.cause() }),
            },
            Stage::AwaitingDebugSource => match event {
                EventModel::Failed { cause } => self.fail(ErrorModel::DebugSource { cause }),
                _ => {
                    let started = ControllerModel { debug_source_active: true, ..self };
                    match self.endpoint {
                        Some(endpoint) => started.open_receiver(endpoint),
                        None => started.fail(ErrorModel::Receiver { cause: Seq::empty() }),
                    }
                },
            },
            Stage::AwaitingReceiver => match event {
                EventModel::Failed { cause } => self.fail(ErrorModel::Receiver { cause }),
                _ => self.run(),
            },
            Stage::Starting => self.wait(),
            Stage::Sleeping => self.await_bound(),
            Stage::AwaitingCompletion => self.wind_down(),
            Stage::Interrupting => self.enter(Stage::Joining),
            Stage::Joining => self.enter(Stage::Reporting),
            Stage::Reporting => ControllerModel {
                session_open: false,
                statistics: event.snapshot(),
                ..self
            }.release(),
            Stage::StoppingDebugSource => ControllerModel {
                debug_source_active: false,
                ..self
            }.enter(Stage::Closed),
            Stage::Closed => self.enter(Stage::Closed),
        }
    }

    /// Teardown on request, from any state. Where teardown has begun already
    /// nothing changes, and the action under way is named again.
    pub open spec fn teardown(self) -> (ControllerModel, ActionModel) {
        if self.stage.winding_down() {
            (self, self.teardown_action())
        } else {
            self.wind_down()
        }
    }
}

} // verus!
