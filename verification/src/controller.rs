//! The session controller.
//!
//! The controller decides; it does no outside work itself. Its driver gives
//! it the report on the last action and gets the next action back, until the
//! action is to leave.

use vstd::prelude::*;
use crate::action::{Action, Event};
use crate::config::{ConfigModel, SessionConfig};
use crate::endpoint::{
    debug_address, duplicate_names, Endpoint, EndpointSource, Provenance,
    DEBUG_INTERVAL_MS, DEBUG_PORT,
};
use crate::error::{ErrorModel, SessionError};
use crate::laws::{lemma_teardown_keeps_wf, lemma_transition_keeps_wf};
use crate::machine::{ControllerModel, Phase, Stage};
use crate::options::Options;
use crate::presenter::{prints_summary, PrintPolicy};
use crate::statistics::RunStatistics;

verus! {

/// The controller of one session.
#[derive(Debug)]
pub struct Controller {
    config: SessionConfig,
    stage: Stage,
    endpoint: Option<Endpoint>,
    debug_source_active: bool,
    session_open: bool,
    statistics: Option<RunStatistics>,
    failure: Option<SessionError>,
}

impl View for Controller {
    type V = ControllerModel;

    closed spec fn view(&self) -> ControllerModel {
        ControllerModel {
            config: self.config@,
            stage: self.stage,
            endpoint: match self.endpoint {
                Some(endpoint) => Some(endpoint@),
                None => None,
            },
            debug_source_active: self.debug_source_active,
            session_open: self.session_open,
            statistics: self.statistics,
            failure: match self.failure {
                Some(error) => Some(error@),
                None => None,
            },
        }
    }
}

impl Controller {
    /// Makes the controller of a session. Nothing is asked for yet.
    pub fn new(config: SessionConfig) -> (controller: Controller)
        ensures
            controller@ == ControllerModel::created(config@),
            controller@.wf(),
    {
        proof {
            use_type_invariant(&config);
        }
        Controller {
            config,
            stage: Stage::Created,
            endpoint: None,
            debug_source_active: false,
            session_open: false,
            statistics: None,
            failure: None,
        }
    }

    /// Validates the options and makes the controller of their session.
    /// Options that name no target are refused here, before any action is
    /// asked for.
    pub fn open(options: Options) -> (outcome: Result<Controller, SessionError>)
        ensures
            match outcome {
                Ok(controller) => options@.has_target() && controller@
                    == ControllerModel::created(ConfigModel::of(options@)) && controller@.wf(),
                Err(error) => !options@.has_target() && error@ == ErrorModel::NoTarget,
            },
    {
        match SessionConfig::from_options(options) {
            Ok(config) => Ok(Controller::new(config)),
            Err(error) => Err(error),
        }
    }

    /// Takes the report on the action under way and gives the next action.
    /// In a new controller no action is under way: the first report may be
    /// any, and the answer is the first action of resolution.
    pub fn step(&mut self, event: Event) -> (action: Action)
        ensures
            (final(self)@, action@) == old(self)@.transition(event@),
            old(self)@.wf() ==> final(self)@.wf(),
    {
        proof {
            if self@.wf() {
                lemma_transition_keeps_wf(self@, event@);
            }
        }
        match self.stage {
            Stage::Created => self.resolve(),
            Stage::AwaitingStream => match event {
                Event::Resolved { address } => {
                    let endpoint = Endpoint {
                        address,
                        discipline: self.config.discipline(),
                        provenance: Provenance::Dispatcher,
                    };
                    self.connect(endpoint)
                },
                _ => {
                    let cause = event.into_cause();
                    self.fail(SessionError::Dispatcher { cause })
                },
            },
            Stage::AwaitingDebugSource => match event {
                Event::Failed { cause } => self.fail(SessionError::DebugSource { cause }),
                _ => {
                    self.debug_source_active = true;
                    let resolved = match &self.endpoint {
                        Some(endpoint) => Some(endpoint.clone()),
                        None => None,
                    };
                    match resolved {
                        Some(endpoint) => self.open_receiver(endpoint),
                        None => self.fail(SessionError::Receiver { cause: String::new() }),
                    }
                },
            },
            Stage::AwaitingReceiver => match event {
                Event::Failed { cause } => self.fail(SessionError::Receiver { cause }),
                _ => {
                    self.stage = Stage::Starting;
                    self.session_open = true;
                    Action::Run {
                        message_bound: self.config.messages(),
                        policy: PrintPolicy::for_level(self.config.level()),
                        size: self.config.size(),
                    }
                },
            },
            Stage::Starting => match self.config.time() {
                Some(time) => {
                    self.stage = Stage::Sleeping;
                    Action::Sleep { millis: sleep_time(time) }
                },
                None => self.await_bound(),
            },
            Stage::Sleeping => self.await_bound(),
            Stage::AwaitingCompletion => self.wind_down(),
            Stage::Interrupting => self.enter(Stage::Joining),
            Stage::Joining => self.enter(Stage::Reporting),
            Stage::Reporting => {
                self.session_open = false;
                self.statistics = event.snapshot();
                self.release()
            },
            Stage::StoppingDebugSource => {
                self.debug_source_active = false;
                self.enter(Stage::Closed)
            },
            Stage::Closed => self.enter(Stage::Closed),
        }
    }

    /// Begins teardown now, whatever is under way, and gives its first
    /// action. Where teardown has begun already, or is over, nothing changes
    /// and the action under way is given again: to ask twice is safe.
    pub fn teardown(&mut self) -> (action: Action)
        ensures
            (final(self)@, action@) == old(self)@.teardown(),
            old(self)@.wf() ==> final(self)@.wf(),
    {
        proof {
            if self@.wf() {
                lemma_teardown_keeps_wf(self@);
            }
        }
        match self.stage {
            Stage::Interrupting | Stage::Joining | Stage::Reporting | Stage::StoppingDebugSource
            | Stage::Closed => self.teardown_action(),
            _ => self.wind_down(),
        }
    }

    /// The phase that the controller is in.
    pub fn phase(&self) -> (phase: Phase)
        ensures
            phase == self@.stage.phase(),
    {
        match self.stage {
            Stage::Created => Phase::Created,
            Stage::AwaitingStream => Phase::Resolving,
            Stage::AwaitingDebugSource => Phase::Resolving,
            Stage::AwaitingReceiver => Phase::Resolving,
            Stage::Starting => Phase::Running,
            Stage::Sleeping => Phase::Running,
            Stage::AwaitingCompletion => Phase::WaitingForBound,
            Stage::Interrupting => Phase::TearingDown,
            Stage::Joining => Phase::TearingDown,
            Stage::Reporting => Phase::TearingDown,
            Stage::StoppingDebugSource => Phase::TearingDown,
            Stage::Closed => Phase::Closed,
        }
    }

    /// The stage that the controller is in.
    pub fn stage(&self) -> (stage: Stage)
        ensures
            stage == self@.stage,
    {
        self.stage
    }

    /// Whether nothing is running any more.
    pub fn is_closed(&self) -> (closed: bool)
        ensures
            closed == (self@.stage == Stage::Closed),
    {
        match self.stage {
            Stage::Closed => true,
            _ => false,
        }
    }

    /// The configuration of the session.
    pub fn config(&self) -> (config: &SessionConfig)
        ensures
            config@ == self@.config,
    {
        &self.config
    }

    /// The endpoint of the session, once it is resolved.
    pub fn endpoint(&self) -> (endpoint: Option<&Endpoint>)
        ensures
            match endpoint {
                Some(endpoint) => self@.endpoint == Some(endpoint@),
                None => self@.endpoint is None,
            },
    {
        self.endpoint.as_ref()
    }

    /// Whether a debug source was started and not yet stopped.
    pub fn debug_source_active(&self) -> (active: bool)
        ensures
            active == self@.debug_source_active,
    {
        self.debug_source_active
    }

    /// Whether the receive session exists and was not yet torn down.
    pub fn session_open(&self) -> (open: bool)
        ensures
            open == self@.session_open,
    {
        self.session_open
    }

    /// The snapshot of the statistics that teardown took.
    pub fn statistics(&self) -> (snapshot: Option<RunStatistics>)
        ensures
            snapshot == self@.statistics,
    {
        self.statistics
    }

    /// The fatal error of the run, if there is one.
    pub fn failure(&self) -> (failure: Option<&SessionError>)
        ensures
            match failure {
                Some(error) => self@.failure == Some(error@),
                None => self@.failure is None,
            },
    {
        self.failure.as_ref()
    }

    /// The exit code of the run as it stands: 1 after a fatal error, else 0.
    pub fn exit_code(&self) -> (code: i32)
        ensures
            code == self@.exit_code(),
    {
        if self.failure.is_some() {
            1
        } else {
            0
        }
    }

    fn teardown_action(&self) -> (action: Action)
        ensures
            action@ == self@.teardown_action(),
    {
        match self.stage {
            Stage::Interrupting => Action::Interrupt,
            Stage::Joining => Action::Join,
            Stage::Reporting => Action::Report { print_summary: prints_summary(self.config.level()) },
            Stage::StoppingDebugSource => Action::StopDebugSource,
            _ => Action::Exit { code: self.exit_code() },
        }
    }

    fn enter(&mut self, stage: Stage) -> (action: Action)
        ensures
            (final(self)@, action@) == old(self)@.enter(stage),
    {
        self.stage = stage;
        self.teardown_action()
    }

    fn release(&mut self) -> (action: Action)
        ensures
            (final(self)@, action@) == old(self)@.release(),
    {
        if self.debug_source_active {
            self.enter(Stage::StoppingDebugSource)
        } else {
            self.enter(Stage::Closed)
        }
    }

    fn wind_down(&mut self) -> (action: Action)
        ensures
            (final(self)@, action@) == old(self)@.wind_down(),
    {
        if self.session_open {
            self.enter(Stage::Interrupting)
        } else {
            self.release()
        }
    }

    fn fail(&mut self, error: SessionError) -> (action: Action)
        ensures
            (final(self)@, action@) == old(self)@.fail(error@),
    {
        self.failure = Some(error);
        self.wind_down()
    }

    fn open_receiver(&mut self, endpoint: Endpoint) -> (action: Action)
        ensures
            (final(self)@, action@) == old(self)@.open_receiver(endpoint@),
    {
        self.stage = Stage::AwaitingReceiver;
        self.endpoint = Some(endpoint.clone());
        Action::OpenReceiver { endpoint }
    }

    fn connect(&mut self, endpoint: Endpoint) -> (action: Action)
        ensures
            (final(self)@, action@) == old(self)@.connect(endpoint@),
    {
        if self.config.debug() {
            self.stage = Stage::AwaitingDebugSource;
            self.endpoint = Some(endpoint);
            Action::StartDebugSource {
                port: DEBUG_PORT,
                discipline: self.config.discipline().complement(),
                interval_ms: DEBUG_INTERVAL_MS,
            }
        } else {
            self.open_receiver(endpoint)
        }
    }

    fn resolve(&mut self) -> (action: Action)
        ensures
            (final(self)@, action@) == old(self)@.resolve(),
    {
        let discipline = self.config.discipline();
        match self.config.source() {
            EndpointSource::Literal { address } => {
                let endpoint = Endpoint {
                    address: address.clone(),
                    discipline,
                    provenance: Provenance::Literal,
                };
                self.connect(endpoint)
            },
            EndpointSource::DebugLoopback => {
                let endpoint = Endpoint {
                    address: debug_address(),
                    discipline,
                    provenance: Provenance::DebugLoopback,
                };
                self.connect(endpoint)
            },
            EndpointSource::Dispatcher { channels } => {
                let channels = duplicate_names(channels);
                self.stage = Stage::AwaitingStream;
                Action::RequestStream { channels, disable_compression: true }
            },
        }
    }

    fn await_bound(&mut self) -> (action: Action)
        ensures
            (final(self)@, action@) == old(self)@.await_bound(),
    {
        if self.config.messages().is_some() {
            self.stage = Stage::AwaitingCompletion;
            Action::AwaitCompletion
        } else {
            self.wind_down()
        }
    }
}

/// Computes how long the calling thread sleeps for a running time.
pub fn sleep_time(time: i64) -> (millis: u64)
    ensures
        millis == crate::machine::sleep_millis(time),
{
    if time > 0 {
        time as u64
    } else {
        u64::MAX
    }
}

} // verus!
