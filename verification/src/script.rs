//! The run in which nothing fails, written out as a script.

use vstd::prelude::*;
use crate::action::{ActionModel, EventModel};
use crate::config::ConfigModel;
use crate::endpoint::{loopback_address, EndpointModel, SourceModel, DEBUG_INTERVAL_MS, DEBUG_PORT};
use crate::machine::{sleep_millis, ControllerModel, Stage};
use crate::presenter::{summary_at_level, PrintPolicy};

verus! {

impl ControllerModel {
    /// The state after the first `count` reports of `events`.
    pub open spec fn after(self, events: Seq<EventModel>, count: nat) -> ControllerModel
        decreases count,
    {
        if count == 0 {
            self
        } else {
            self.after(events, (count - 1) as nat).transition(events[count - 1]).0
        }
    }

    /// The actions that answer the reports of `events`, in their order.
    pub open spec fn answers(self, events: Seq<EventModel>) -> Seq<ActionModel> {
        Seq::new(events.len(), |i: int| self.after(events, i as nat).transition(events[i]).1)
    }
}

/// The endpoint of a session, given the address that the dispatcher names if
/// it is asked.
pub open spec fn resolved_endpoint(config: ConfigModel, named: Seq<char>) -> EndpointModel {
    EndpointModel {
        address: match config.source {
            SourceModel::Literal { address } => address,
            SourceModel::Dispatcher { .. } => named,
            SourceModel::DebugLoopback => loopback_address(),
        },
        discipline: config.discipline,
        provenance: config.source.provenance(),
    }
}

/// The actions of a run in which nothing fails, from the first to the last.
pub open spec fn script(config: ConfigModel, named: Seq<char>) -> Seq<ActionModel> {
    let begin = Seq::<ActionModel>::empty();
    let asked = match config.source {
        SourceModel::Dispatcher { channels } => begin.push(
            ActionModel::RequestStream { channels, disable_compression: true },
        ),
        _ => begin,
    };
    let fed = if config.debug {
        asked.push(
            ActionModel::StartDebugSource {
                port: DEBUG_PORT,
                discipline: config.discipline.complement(),
                interval_ms: DEBUG_INTERVAL_MS,
            },
        )
    } else {
        asked
    };
    let running = fed.push(
        ActionModel::OpenReceiver { endpoint: resolved_endpoint(config, named) },
    ).push(
        ActionModel::Run {
            message_bound: config.messages,
            policy: PrintPolicy::at_level(config.level),
            size: config.size,
        },
    );
    let slept = match config.time {
        Some(time) => running.push(ActionModel::Sleep { millis: sleep_millis(time) }),
        None => running,
    };
    let awaited = if config.messages is Some {
        slept.push(ActionModel::AwaitCompletion)
    } else {
        slept
    };
    let reported = awaited.push(ActionModel::Interrupt).push(ActionModel::Join).push(
        ActionModel::Report { print_summary: summary_at_level(config.level) },
    );
    let stopped = if config.debug {
        reported.push(ActionModel::StopDebugSource)
    } else {
        reported
    };
    stopped.push(ActionModel::Exit { code: 0 })
}

/// Whether a report lets the run go on after an action: the dispatcher has
/// to name the address, and neither the debug source nor the receiver may
/// fail. After every other action any report does.
pub open spec fn favourable(action: ActionModel, report: EventModel, named: Seq<char>) -> bool {
    match action {
        ActionModel::RequestStream { .. } => report == (EventModel::Resolved { address: named }),
        ActionModel::StartDebugSource { .. } => !(report is Failed),
        ActionModel::OpenReceiver { .. } => !(report is Failed),
        _ => true,
    }
}

/// Whether `events` are the reports of a run in which nothing fails: one to
/// begin with, and then a favourable one on each action of the script but
/// the last.
pub open spec fn unfailing(config: ConfigModel, named: Seq<char>, events: Seq<EventModel>) -> bool {
    &&& events.len() == script(config, named).len()
    &&& forall|i: int|
        0 < i < events.len() ==> favourable(
            script(config, named)[i - 1],
            #[trigger] events[i],
            named,
        )
}

/// The stage in which an action is under way.
pub open spec fn stage_of(action: ActionModel) -> Stage {
    match action {
        ActionModel::RequestStream { .. } => Stage::AwaitingStream,
        ActionModel::StartDebugSource { .. } => Stage::AwaitingDebugSource,
        ActionModel::OpenReceiver { .. } => Stage::AwaitingReceiver,
        ActionModel::Run { .. } => Stage::Starting,
        ActionModel::Sleep { .. } => Stage::Sleeping,
        ActionModel::AwaitCompletion => Stage::AwaitingCompletion,
        ActionModel::Interrupt => Stage::Interrupting,
        ActionModel::Join => Stage::Joining,
        ActionModel::Report { .. } => Stage::Reporting,
        ActionModel::StopDebugSource => Stage::StoppingDebugSource,
        ActionModel::Exit { .. } => Stage::Closed,
    }
}

/// Whether a state is the one that a run without failure is in after `count`
/// reports.
pub open spec fn on_script(
    config: ConfigModel,
    named: Seq<char>,
    state: ControllerModel,
    count: int,
) -> bool {
    &&& state.wf()
    &&& state.config == config
    &&& state.failure is None
    &&& state.endpoint is Some ==> state.endpoint == Some(resolved_endpoint(config, named))
    &&& state.stage == if count == 0 {
        Stage::Created
    } else {
        stage_of(script(config, named)[count - 1])
    }
    &&& state.session_open || state.stage == Stage::AwaitingReceiver
        ==> state.debug_source_active == config.debug
}

/// A run in which nothing fails stays on the script: each report is answered
/// by the next action of the script.
pub proof fn lemma_run_stays_on_script(
    config: ConfigModel,
    named: Seq<char>,
    events: Seq<EventModel>,
    count: nat,
)
    requires
        config.wf(),
        unfailing(config, named, events),
        count <= events.len(),
    ensures
        on_script(config, named, ControllerModel::created(config).after(events, count), count as int),
        count > 0 ==> ControllerModel::created(config).after(events, (count - 1) as nat).transition(
            events[count - 1],
        ).1 == script(config, named)[count - 1],
    decreases count,
{
    if count > 0 {
        lemma_run_stays_on_script(config, named, events, (count - 1) as nat);
        let before = ControllerModel::created(config).after(events, (count - 1) as nat);
        let plan = script(config, named);
        if count > 1 {
            assert(favourable(plan[count - 2], events[count - 1], named));
        }
    }
}

/// The script is never empty, and it ends by leaving with exit code 0.
pub proof fn lemma_script_ends_with_exit(config: ConfigModel, named: Seq<char>)
    ensures
        script(config, named).len() >= 6,
        script(config, named).last() == (ActionModel::Exit { code: 0 }),
{
}

/// A run in which nothing fails asks for exactly the actions of the script,
/// in their order.
pub proof fn lemma_run_follows_the_script(
    config: ConfigModel,
    named: Seq<char>,
    events: Seq<EventModel>,
)
    requires
        config.wf(),
        unfailing(config, named, events),
    ensures
        ControllerModel::created(config).answers(events) == script(config, named),
{
    let start = ControllerModel::created(config);
    let plan = script(config, named);
    let answers = start.answers(events);
    assert(answers.len() == plan.len());
    assert forall|i: int| 0 <= i < answers.len() implies answers[i] == plan[i] by {
        lemma_run_stays_on_script(config, named, events, (i + 1) as nat);
    }
    assert(answers =~= plan);
}

/// A run in which nothing fails ends closed, with exit code 0.
pub proof fn lemma_run_ends_closed(config: ConfigModel, named: Seq<char>, events: Seq<EventModel>)
    requires
        config.wf(),
        unfailing(config, named, events),
    ensures
        ControllerModel::created(config).after(events, events.len()).stage == Stage::Closed,
        ControllerModel::created(config).after(events, events.len()).exit_code() == 0,
{
    lemma_run_stays_on_script(config, named, events, events.len());
    lemma_script_ends_with_exit(config, named);
}

/// A run in which nothing fails keeps the snapshot that answers the request
/// for the statistics, up to its end.
pub proof fn lemma_run_keeps_the_snapshot(
    config: ConfigModel,
    named: Seq<char>,
    events: Seq<EventModel>,
    report: int,
    count: nat,
)
    requires
        config.wf(),
        unfailing(config, named, events),
        0 < report < count <= events.len(),
        script(config, named)[report - 1] is Report,
    ensures
        ControllerModel::created(config).after(events, count).statistics
            == events[report].snapshot(),
    decreases count,
{
    lemma_run_stays_on_script(config, named, events, (count - 1) as nat);
    lemma_run_stays_on_script(config, named, events, count);
    if count > report + 1 {
        lemma_run_keeps_the_snapshot(config, named, events, report, (count - 1) as nat);
    }
}

} // verus!
