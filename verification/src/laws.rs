//! What holds of every run of the controller.
//!
//! The laws speak of the state machine of [`ControllerModel`]. The controller
//! itself takes exactly the steps of that machine, so they hold of it too.

use vstd::prelude::*;
use crate::action::{ActionModel, EventModel};
use crate::config::ConfigModel;
use crate::endpoint::{loopback_address, Provenance, SourceModel};
use crate::error::ErrorModel;
use crate::machine::{sleep_millis, ControllerModel, Phase, Stage};
use crate::options::OptionsModel;
use crate::presenter::PrintPolicy;

verus! {

/// The configuration of options that name a target is well formed.
pub proof fn lemma_configuration_is_wf(options: OptionsModel)
    requires
        options.has_target(),
    ensures
        ConfigModel::of(options).wf(),
{
}

/// A new controller is well formed.
pub proof fn lemma_created_is_wf(config: ConfigModel)
    requires
        config.wf(),
    ensures
        ControllerModel::created(config).wf(),
{
}

/// Every step keeps the controller well formed.
pub proof fn lemma_transition_keeps_wf(state: ControllerModel, event: EventModel)
    requires
        state.wf(),
    ensures
        state.transition(event).0.wf(),
{
}

/// Teardown on request keeps the controller well formed.
pub proof fn lemma_teardown_keeps_wf(state: ControllerModel)
    requires
        state.wf(),
    ensures
        state.teardown().0.wf(),
{
}

/// The table of the print levels: nothing of a message is printed below
/// level 2, the metadata alone at level 2, the values alone at level 3, and
/// both headers with the values from level 4 on.
pub proof fn lemma_print_level_table(level: u64)
    ensures
        ({
            let policy = PrintPolicy::at_level(level);
            &&& policy.main_header == policy.data_header
            &&& level <= 1 ==> !policy.main_header && !policy.metadata && !policy.data_values
            &&& level == 2 ==> !policy.main_header && policy.metadata && !policy.data_values
            &&& level == 3 ==> !policy.main_header && !policy.metadata && policy.data_values
            &&& level >= 4 ==> policy.main_header && !policy.metadata && policy.data_values
        }),
{
}

/// Exactly one provenance determines the endpoint of a run: the literal
/// address if one is given; else the debug source in debug mode; else the
/// dispatcher. No two of them hold at once.
pub proof fn lemma_provenance_is_exclusive(options: OptionsModel)
    ensures
        ({
            let source = SourceModel::of(options);
            &&& source is Literal <==> options.url is Some
            &&& source is DebugLoopback <==> options.url is None && options.debug
            &&& source is Dispatcher <==> options.url is None && !options.debug
            &&& source is Literal ==> !(source is DebugLoopback) && !(source is Dispatcher)
            &&& source is DebugLoopback ==> !(source is Literal) && !(source is Dispatcher)
            &&& source is Dispatcher ==> !(source is Literal) && !(source is DebugLoopback)
            &&& source is Literal || source is DebugLoopback || source is Dispatcher
            &&& source matches SourceModel::Literal { address } ==> Some(address) == options.url
            &&& source matches SourceModel::Dispatcher { channels } ==> channels
                == options.channels
        }),
{
}

/// The endpoint of a session has the provenance that the configuration
/// selects, and the address that this provenance gives: the given one for a
/// literal, the fixed local one for the debug source.
pub proof fn lemma_endpoint_follows_its_provenance(state: ControllerModel)
    requires
        state.wf(),
        state.endpoint is Some,
    ensures
        ({
            let endpoint = state.endpoint->0;
            &&& endpoint.discipline == state.config.discipline
            &&& endpoint.provenance == state.config.source.provenance()
            &&& endpoint.provenance == Provenance::Literal ==> state.config.source
                == (SourceModel::Literal { address: endpoint.address })
            &&& endpoint.provenance == Provenance::DebugLoopback ==> endpoint.address
                == loopback_address() && state.config.debug
            &&& endpoint.provenance == Provenance::Dispatcher ==> !state.config.debug
        }),
{
}

/// The endpoint is resolved once: no step and no teardown changes it.
pub proof fn lemma_endpoint_is_resolved_once(state: ControllerModel, event: EventModel)
    requires
        state.wf(),
        state.endpoint is Some,
    ensures
        state.transition(event).0.endpoint == state.endpoint,
        state.teardown().0.endpoint == state.endpoint,
{
}

/// The dispatcher is asked only by the first step of a run that has neither
/// an address nor debug mode, and then for the channels of the configuration,
/// with compression off.
pub proof fn lemma_dispatcher_is_asked_for_the_channels(state: ControllerModel, event: EventModel)
    requires
        state.wf(),
        state.transition(event).1 is RequestStream,
    ensures
        state.stage == Stage::Created,
        !state.config.debug,
        state.config.source matches SourceModel::Dispatcher { channels } && state.transition(
            event,
        ).1 == (ActionModel::RequestStream { channels, disable_compression: true }),
{
}

/// The debug source is started exactly in debug mode, before the receiver is
/// created, and with the discipline that feeds the session: it pushes to a
/// session that pulls and publishes to every other.
pub proof fn lemma_debug_source_matches_the_session(state: ControllerModel, event: EventModel)
    requires
        state.wf(),
    ensures
        state.transition(event).1 is StartDebugSource ==> state.config.debug
            && !state.session_open && !state.debug_source_active && state.transition(event).1
            == (ActionModel::StartDebugSource {
            port: 10300,
            discipline: state.config.discipline.complement(),
            interval_ms: 100,
        }),
        state.transition(event).1 is OpenReceiver ==> state.transition(event).0.debug_source_active
            == state.config.debug,
{
}

/// The receiver is created only once the endpoint is resolved, on that
/// endpoint, and never while a session exists.
pub proof fn lemma_receiver_follows_resolution(state: ControllerModel, event: EventModel)
    requires
        state.wf(),
        state.transition(event).1 is OpenReceiver,
    ensures
        !state.session_open,
        state.transition(event).0.endpoint == Some(state.transition(event).1->endpoint),
        state.transition(event).0.stage == Stage::AwaitingReceiver,
{
}

/// What is asked of the session is asked only while it exists: to run, to
/// wait for it, to interrupt and join it, and to read its statistics. The
/// wait for the receive loop to stop by itself is asked for only where a
/// number of messages is set.
pub proof fn lemma_session_is_used_while_it_exists(state: ControllerModel, event: EventModel)
    requires
        state.wf(),
    ensures
        ({
            let (next, action) = state.transition(event);
            &&& action is Run || action is Sleep || action is AwaitCompletion || action is Interrupt
                || action is Join || action is Report ==> next.session_open
            &&& action is AwaitCompletion ==> state.config.messages is Some
            &&& action is Sleep ==> state.config.time is Some
            &&& action is StopDebugSource ==> next.debug_source_active && !next.session_open
        }),
{
}

/// The receive loop is started only on a receiver that was just created,
/// with the number of messages, the print level and the size of the
/// configuration.
pub proof fn lemma_run_carries_the_bound(state: ControllerModel, event: EventModel)
    requires
        state.wf(),
        state.transition(event).1 is Run,
    ensures
        state.stage == Stage::AwaitingReceiver,
        !(event is Failed),
        state.transition(event).1 == (ActionModel::Run {
            message_bound: state.config.messages,
            policy: PrintPolicy::at_level(state.config.level),
            size: state.config.size,
        }),
{
}

/// A step begins the teardown of a running session only when its bounds are
/// reached: with a number of messages set, in answer to the report that the
/// receive loop has stopped by itself; without one, in answer to the report
/// that the running time was slept.
pub proof fn lemma_teardown_waits_for_the_bounds(state: ControllerModel, event: EventModel)
    requires
        state.wf(),
        state.transition(event).1 is Interrupt,
    ensures
        state.config.messages is Some ==> state.stage == Stage::AwaitingCompletion,
        state.config.messages is None ==> state.stage == Stage::Sleeping,
{
}

/// A run bounded by a number of messages alone: the receive loop is started
/// with that number, the calling thread then waits until the loop has
/// stopped by itself, and only the report on that wait begins teardown. The
/// calling thread never sleeps.
pub proof fn lemma_count_bound_is_awaited(
    state: ControllerModel,
    count: u32,
    opened: EventModel,
    started: EventModel,
    completed: EventModel,
)
    requires
        state.wf(),
        state.stage == Stage::AwaitingReceiver,
        state.config.messages == Some(count),
        state.config.time is None,
        !(opened is Failed),
    ensures
        ({
            let (running, first) = state.transition(opened);
            let (waiting, second) = running.transition(started);
            let (stopping, third) = waiting.transition(completed);
            &&& first == (ActionModel::Run {
                message_bound: Some(count),
                policy: PrintPolicy::at_level(state.config.level),
                size: state.config.size,
            })
            &&& running.stage.phase() == Phase::Running
            &&& second == ActionModel::AwaitCompletion
            &&& waiting.stage.phase() == Phase::WaitingForBound
            &&& third == ActionModel::Interrupt
            &&& stopping.stage.phase() == Phase::TearingDown
        }),
{
}

/// A run bounded by a running time alone: the receive loop is started
/// without a number of messages, the calling thread then sleeps for the
/// running time, and only the report on that sleep begins teardown. The
/// calling thread never waits for the loop to stop by itself.
pub proof fn lemma_time_bound_is_slept(
    state: ControllerModel,
    time: i64,
    opened: EventModel,
    started: EventModel,
    slept: EventModel,
)
    requires
        state.wf(),
        state.stage == Stage::AwaitingReceiver,
        state.config.messages is None,
        state.config.time == Some(time),
        !(opened is Failed),
    ensures
        ({
            let (running, first) = state.transition(opened);
            let (sleeping, second) = running.transition(started);
            let (stopping, third) = sleeping.transition(slept);
            &&& first == (ActionModel::Run {
                message_bound: None,
                policy: PrintPolicy::at_level(state.config.level),
                size: state.config.size,
            })
            &&& second == (ActionModel::Sleep { millis: sleep_millis(time) })
            &&& time > 0 ==> sleep_millis(time) == time
            &&& time <= 0 ==> sleep_millis(time) == u64::MAX
            &&& sleeping.stage.phase() == Phase::Running
            &&& third == ActionModel::Interrupt
            &&& stopping.stage.phase() == Phase::TearingDown
        }),
{
}

/// A run bounded both ways: the calling thread sleeps for the whole running
/// time and then waits until the receive loop has stopped by itself. The two
/// waits follow each other; neither is cut short by the other.
pub proof fn lemma_both_bounds_follow_each_other(
    state: ControllerModel,
    count: u32,
    time: i64,
    opened: EventModel,
    started: EventModel,
    slept: EventModel,
    completed: EventModel,
)
    requires
        state.wf(),
        state.stage == Stage::AwaitingReceiver,
        state.config.messages == Some(count),
        state.config.time == Some(time),
        !(opened is Failed),
    ensures
        ({
            let (running, first) = state.transition(opened);
            let (sleeping, second) = running.transition(started);
            let (waiting, third) = sleeping.transition(slept);
            let (stopping, fourth) = waiting.transition(completed);
            &&& first is Run && first->message_bound == Some(count)
            &&& second == (ActionModel::Sleep { millis: sleep_millis(time) })
            &&& third == ActionModel::AwaitCompletion
            &&& fourth == ActionModel::Interrupt
        }),
{
}

/// Teardown runs in one order, whatever the reports say: the receive loop is
/// interrupted, the background thread joined, the statistics read, the debug
/// source stopped if one is active, and then the run is over. Once teardown
/// has begun, nothing but these actions is ever asked for.
pub proof fn lemma_teardown_runs_in_order(state: ControllerModel, event: EventModel)
    requires
        state.wf(),
        state.stage.winding_down(),
    ensures
        ({
            let (next, action) = state.transition(event);
            &&& next.stage.winding_down()
            &&& action.is_teardown()
            &&& action == next.teardown_action()
            &&& state.stage == Stage::Interrupting ==> action == ActionModel::Join
            &&& state.stage == Stage::Joining ==> action is Report
            &&& state.stage == Stage::Reporting ==> action == if state.debug_source_active {
                ActionModel::StopDebugSource
            } else {
                ActionModel::Exit { code: 0 }
            }
            &&& state.stage == Stage::StoppingDebugSource ==> action is Exit
            &&& state.stage != Stage::Closed ==> action.teardown_rank()
                > state.teardown_action().teardown_rank()
        }),
{
}

/// What a report says does not steer teardown: after any two reports the
/// same action follows, in the same stage. Only the snapshot that is
/// recorded depends on the report.
pub proof fn lemma_reports_do_not_steer_teardown(
    state: ControllerModel,
    one: EventModel,
    other: EventModel,
)
    requires
        state.stage.winding_down(),
    ensures
        state.transition(one).1 == state.transition(other).1,
        state.transition(one).0.stage == state.transition(other).0.stage,
        state.stage != Stage::Reporting ==> state.transition(one) == state.transition(other),
{
}

/// The summary of the statistics is printed exactly at a print level above
/// zero, but the snapshot is taken at every level.
pub proof fn lemma_summary_follows_the_level(state: ControllerModel, event: EventModel)
    requires
        state.wf(),
        state.stage == Stage::Joining,
    ensures
        state.transition(event).1 == (ActionModel::Report {
            print_summary: state.config.level > 0,
        }),
{
}

/// The snapshot that teardown records is the one reported, and the session
/// is gone once it is recorded.
pub proof fn lemma_snapshot_is_recorded(state: ControllerModel, event: EventModel)
    requires
        state.wf(),
        state.stage == Stage::Reporting,
    ensures
        state.transition(event).0.statistics == event.snapshot(),
        !state.transition(event).0.session_open,
{
}

/// Once taken, the snapshot of the statistics never changes.
pub proof fn lemma_snapshot_is_kept(state: ControllerModel, event: EventModel)
    requires
        state.wf(),
        state.statistics is Some,
    ensures
        state.transition(event).0.statistics == state.statistics,
        state.teardown().0.statistics == state.statistics,
{
}

/// Teardown on request is idempotent: asked a second time it changes
/// nothing, names the same action, and shows the same statistics.
pub proof fn lemma_teardown_is_idempotent(state: ControllerModel)
    ensures
        ({
            let (once, first) = state.teardown();
            let (twice, second) = once.teardown();
            &&& twice == once
            &&& second == first
            &&& once.stage.winding_down()
            &&& first.is_teardown()
            &&& once.statistics == state.statistics
        }),
{
}

/// Teardown comes to its end: from any state, once it is asked for, four
/// reports of any kind close the controller.
pub proof fn lemma_teardown_reaches_closed(
    state: ControllerModel,
    first: EventModel,
    second: EventModel,
    third: EventModel,
    fourth: EventModel,
)
    ensures
        state.teardown().0.transition(first).0.transition(second).0.transition(third).0.transition(
            fourth,
        ).0.stage == Stage::Closed,
{
}

/// A closed controller stays as it is: every report and every request for
/// teardown leaves it unchanged and is answered by the same exit code.
pub proof fn lemma_closed_is_final(state: ControllerModel, event: EventModel)
    requires
        state.stage == Stage::Closed,
    ensures
        state.transition(event) == (state, ActionModel::Exit { code: state.exit_code() }),
        state.teardown() == (state, ActionModel::Exit { code: state.exit_code() }),
{
}

/// When the run is over nothing is left running: the session is gone and the
/// debug source is stopped. The exit code is 1 exactly after a fatal error.
pub proof fn lemma_closed_leaves_nothing_running(state: ControllerModel)
    requires
        state.wf(),
        state.stage == Stage::Closed,
    ensures
        !state.session_open,
        !state.debug_source_active,
        state.exit_code() == 1 <==> state.failure is Some,
        state.exit_code() == 0 <==> state.failure is None,
{
}

/// Three reports are fatal, and only these: the dispatcher naming no
/// address, the debug source not starting, and the receiver not being
/// created. The error is recorded with its cause, no session exists, and
/// teardown begins at once; a debug source that was started is stopped.
pub proof fn lemma_fatal_reports(state: ControllerModel, event: EventModel)
    requires
        state.wf(),
    ensures
        ({
            let (next, action) = state.transition(event);
            let fatal = (state.stage == Stage::AwaitingStream && !(event is Resolved)) || (
            state.stage == Stage::AwaitingDebugSource && event is Failed) || (state.stage
                == Stage::AwaitingReceiver && event is Failed);
            &&& fatal ==> {
                &&& next.failure is Some
                &&& next.failure->0 == match state.stage {
                    Stage::AwaitingStream => ErrorModel::Dispatcher { cause: event.cause() },
                    Stage::AwaitingDebugSource => ErrorModel::DebugSource { cause: event.cause() },
                    _ => ErrorModel::Receiver { cause: event.cause() },
                }
                &&& !next.session_open
                &&& action == if state.debug_source_active {
                    ActionModel::StopDebugSource
                } else {
                    ActionModel::Exit { code: 1 }
                }
            }
            &&& !fatal ==> next.failure == state.failure
        }),
{
}

/// A fatal error is never taken back, and a session never exists beside one.
pub proof fn lemma_failure_is_kept(state: ControllerModel, event: EventModel)
    requires
        state.wf(),
        state.failure is Some,
    ensures
        state.transition(event).0.failure == state.failure,
        state.teardown().0.failure == state.failure,
        !state.session_open,
        state.stage.winding_down(),
{
}

} // verus!
