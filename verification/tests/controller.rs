use bsreceiver::action::{Action, Event};
use bsreceiver::config::SessionConfig;
use bsreceiver::controller::{sleep_time, Controller};
use bsreceiver::discipline::SocketDiscipline;
use bsreceiver::endpoint::{Endpoint, Provenance};
use bsreceiver::error::SessionError;
use bsreceiver::machine::{Phase, Stage};
use bsreceiver::options::Options;
use bsreceiver::presenter::PrintPolicy;
use bsreceiver::statistics::RunStatistics;

fn bare() -> Options {
    Options {
        url: None,
        channels: Vec::new(),
        pull: false,
        debug: false,
        messages: None,
        time: None,
        level: None,
        size: None,
    }
}

fn with_url(address: &str) -> Options {
    Options { url: Some(address.to_string()), ..bare() }
}

fn controller_of(options: Options) -> Controller {
    Controller::new(SessionConfig::from_options(options).unwrap())
}

fn endpoint(address: &str, discipline: SocketDiscipline, provenance: Provenance) -> Endpoint {
    Endpoint { address: address.to_string(), discipline, provenance }
}

fn values_only() -> PrintPolicy {
    PrintPolicy { main_header: false, data_header: false, metadata: false, data_values: true }
}

fn nothing() -> PrintPolicy {
    PrintPolicy { main_header: false, data_header: false, metadata: false, data_values: false }
}

fn snapshot_of(messages_received: u32) -> RunStatistics {
    RunStatistics { messages_received, bytes_received: 800, messages_lost: 0 }
}

fn failed(cause: &str) -> Event {
    Event::Failed { cause: cause.to_string() }
}

/// Steps the controller with `Completed` until the action is the one asked
/// for, and returns the actions on the way.
fn advance_to(controller: &mut Controller, wanted: &Action) -> Vec<Action> {
    let mut actions = Vec::new();
    for _ in 0..20 {
        let action = controller.step(Event::Completed);
        if &action == wanted {
            return actions;
        }
        actions.push(action);
    }
    panic!("the action never came: {:?}", wanted);
}

#[test]
fn debug_round_trip_with_five_messages_at_level_zero() {
    let options = Options { debug: true, messages: Some(5), level: Some(0), ..bare() };
    let mut controller = Controller::open(options).unwrap();
    assert_eq!(controller.phase(), Phase::Created);

    assert_eq!(
        controller.step(Event::Completed),
        Action::StartDebugSource {
            port: 10300,
            discipline: SocketDiscipline::Publish,
            interval_ms: 100
        }
    );
    assert_eq!(controller.phase(), Phase::Resolving);
    assert!(!controller.debug_source_active());

    assert_eq!(
        controller.step(Event::Completed),
        Action::OpenReceiver {
            endpoint: endpoint(
                "tcp://127.0.0.1:10300",
                SocketDiscipline::Subscribe,
                Provenance::DebugLoopback
            )
        }
    );
    assert!(controller.debug_source_active());
    assert!(!controller.session_open());

    assert_eq!(
        controller.step(Event::Completed),
        Action::Run { message_bound: Some(5), policy: nothing(), size: 10 }
    );
    assert_eq!(controller.phase(), Phase::Running);
    assert!(controller.session_open());

    assert_eq!(controller.step(Event::Completed), Action::AwaitCompletion);
    assert_eq!(controller.phase(), Phase::WaitingForBound);
    assert_eq!(controller.step(Event::Completed), Action::Interrupt);
    assert_eq!(controller.phase(), Phase::TearingDown);
    assert_eq!(controller.step(Event::Completed), Action::Join);
    assert_eq!(controller.step(Event::Completed), Action::Report { print_summary: false });
    assert_eq!(controller.statistics(), None);
    assert_eq!(
        controller.step(Event::Statistics { snapshot: snapshot_of(5) }),
        Action::StopDebugSource
    );
    assert!(!controller.session_open());
    assert!(controller.debug_source_active());
    assert_eq!(controller.step(Event::Completed), Action::Exit { code: 0 });

    assert_eq!(controller.phase(), Phase::Closed);
    assert!(controller.is_closed());
    assert_eq!(controller.statistics().unwrap().messages_received, 5);
    assert!(!controller.debug_source_active());
    assert!(!controller.session_open());
    assert_eq!(controller.exit_code(), 0);
    assert_eq!(controller.failure(), None);
}

#[test]
fn a_count_bound_alone_is_awaited_and_never_slept() {
    let options = Options { messages: Some(3), ..with_url("tcp://host:9000") };
    let mut controller = controller_of(options);
    assert_eq!(
        controller.step(Event::Completed),
        Action::OpenReceiver {
            endpoint: endpoint("tcp://host:9000", SocketDiscipline::Subscribe, Provenance::Literal)
        }
    );
    assert_eq!(
        controller.step(Event::Completed),
        Action::Run { message_bound: Some(3), policy: values_only(), size: 10 }
    );
    assert_eq!(controller.step(Event::Completed), Action::AwaitCompletion);
    assert_eq!(controller.stage(), Stage::AwaitingCompletion);
    assert_eq!(controller.step(Event::Completed), Action::Interrupt);
    assert_eq!(controller.step(Event::Completed), Action::Join);
    assert_eq!(controller.step(Event::Completed), Action::Report { print_summary: true });
    assert_eq!(
        controller.step(Event::Statistics { snapshot: snapshot_of(3) }),
        Action::Exit { code: 0 }
    );
    assert_eq!(controller.statistics(), Some(snapshot_of(3)));
}

#[test]
fn a_time_bound_alone_is_slept_and_never_awaited() {
    let options = Options { time: Some(1500), pull: true, ..with_url("tcp://host:9000") };
    let mut controller = controller_of(options);
    assert_eq!(
        controller.step(Event::Completed),
        Action::OpenReceiver {
            endpoint: endpoint("tcp://host:9000", SocketDiscipline::Pull, Provenance::Literal)
        }
    );
    assert_eq!(
        controller.step(Event::Completed),
        Action::Run { message_bound: None, policy: values_only(), size: 10 }
    );
    assert_eq!(controller.step(Event::Completed), Action::Sleep { millis: 1500 });
    assert_eq!(controller.phase(), Phase::Running);
    assert_eq!(controller.stage(), Stage::Sleeping);
    assert_eq!(controller.step(Event::Completed), Action::Interrupt);
    assert_eq!(controller.step(Event::Completed), Action::Join);
    assert_eq!(controller.step(Event::Completed), Action::Report { print_summary: true });
    assert_eq!(
        controller.step(Event::Statistics { snapshot: snapshot_of(40) }),
        Action::Exit { code: 0 }
    );
}

#[test]
fn both_bounds_are_waited_for_one_after_the_other() {
    let options = Options { time: Some(200), messages: Some(2), ..with_url("tcp://host:9000") };
    let mut controller = controller_of(options);
    controller.step(Event::Completed);
    assert_eq!(
        controller.step(Event::Completed),
        Action::Run { message_bound: Some(2), policy: values_only(), size: 10 }
    );
    assert_eq!(controller.step(Event::Completed), Action::Sleep { millis: 200 });
    assert_eq!(controller.step(Event::Completed), Action::AwaitCompletion);
    assert_eq!(controller.step(Event::Completed), Action::Interrupt);
}

#[test]
fn a_time_that_is_not_positive_sleeps_without_end() {
    assert_eq!(sleep_time(0), u64::MAX);
    assert_eq!(sleep_time(-5), u64::MAX);
    assert_eq!(sleep_time(i64::MIN), u64::MAX);
    assert_eq!(sleep_time(1), 1);
    assert_eq!(sleep_time(i64::MAX), 9223372036854775807);

    let options = Options { time: Some(0), ..with_url("tcp://host:9000") };
    let mut controller = controller_of(options);
    controller.step(Event::Completed);
    controller.step(Event::Completed);
    assert_eq!(controller.step(Event::Completed), Action::Sleep { millis: u64::MAX });
}

#[test]
fn the_dispatcher_names_the_endpoint() {
    let options = Options {
        channels: vec!["S10:A".to_string(), "S10:B".to_string()],
        level: Some(4),
        size: Some(3),
        ..bare()
    };
    let mut controller = controller_of(options);
    assert_eq!(
        controller.step(Event::Completed),
        Action::RequestStream {
            channels: vec!["S10:A".to_string(), "S10:B".to_string()],
            disable_compression: true
        }
    );
    assert_eq!(controller.phase(), Phase::Resolving);
    assert_eq!(controller.endpoint(), None);
    assert_eq!(
        controller.step(Event::Resolved { address: "tcp://stream:7001".to_string() }),
        Action::OpenReceiver {
            endpoint: endpoint(
                "tcp://stream:7001",
                SocketDiscipline::Subscribe,
                Provenance::Dispatcher
            )
        }
    );
    assert_eq!(
        controller.endpoint(),
        Some(&endpoint("tcp://stream:7001", SocketDiscipline::Subscribe, Provenance::Dispatcher))
    );
    assert_eq!(
        controller.step(Event::Completed),
        Action::Run {
            message_bound: Some(1),
            policy: PrintPolicy {
                main_header: true,
                data_header: true,
                metadata: false,
                data_values: true
            },
            size: 3
        }
    );
    assert_eq!(controller.step(Event::Completed), Action::AwaitCompletion);
}

#[test]
fn a_dispatcher_failure_ends_the_run_at_once() {
    let options = Options { channels: vec!["A".to_string()], ..bare() };
    let mut controller = controller_of(options);
    controller.step(Event::Completed);
    assert_eq!(controller.step(failed("connection refused")), Action::Exit { code: 1 });
    assert_eq!(controller.phase(), Phase::Closed);
    assert_eq!(
        controller.failure(),
        Some(&SessionError::Dispatcher { cause: "connection refused".to_string() })
    );
    assert_eq!(controller.exit_code(), 1);
    assert_eq!(controller.statistics(), None);
    assert_eq!(controller.endpoint(), None);
}

#[test]
fn a_dispatcher_that_names_nothing_fails_the_run() {
    let options = Options { channels: vec!["A".to_string()], ..bare() };
    let mut controller = controller_of(options);
    controller.step(Event::Completed);
    assert_eq!(controller.step(Event::Completed), Action::Exit { code: 1 });
    assert_eq!(controller.failure(), Some(&SessionError::Dispatcher { cause: String::new() }));
}

#[test]
fn a_debug_source_that_does_not_start_fails_the_run() {
    let options = Options { debug: true, ..bare() };
    let mut controller = controller_of(options);
    assert_eq!(
        controller.step(Event::Completed),
        Action::StartDebugSource {
            port: 10300,
            discipline: SocketDiscipline::Publish,
            interval_ms: 100
        }
    );
    assert_eq!(controller.step(failed("port in use")), Action::Exit { code: 1 });
    assert!(!controller.debug_source_active());
    assert_eq!(
        controller.failure(),
        Some(&SessionError::DebugSource { cause: "port in use".to_string() })
    );
}

#[test]
fn a_receiver_failure_stops_the_debug_source() {
    let options = Options { debug: true, pull: true, ..bare() };
    let mut controller = controller_of(options);
    assert_eq!(
        controller.step(Event::Completed),
        Action::StartDebugSource { port: 10300, discipline: SocketDiscipline::Push, interval_ms: 100 }
    );
    controller.step(Event::Completed);
    assert_eq!(controller.step(failed("no socket")), Action::StopDebugSource);
    assert_eq!(controller.phase(), Phase::TearingDown);
    assert!(!controller.session_open());
    assert_eq!(controller.step(Event::Completed), Action::Exit { code: 1 });
    assert!(!controller.debug_source_active());
    assert_eq!(
        controller.failure(),
        Some(&SessionError::Receiver { cause: "no socket".to_string() })
    );
    assert_eq!(controller.statistics(), None);
}

#[test]
fn a_receiver_failure_without_debug_source_leaves_at_once() {
    let mut controller = controller_of(with_url("tcp://host:1"));
    controller.step(Event::Completed);
    assert_eq!(controller.step(failed("no socket")), Action::Exit { code: 1 });
    assert!(controller.is_closed());
}

#[test]
fn a_given_address_in_debug_mode_still_starts_the_debug_source() {
    let options = Options { debug: true, ..with_url("tcp://host:1") };
    let mut controller = controller_of(options);
    assert_eq!(
        controller.step(Event::Completed),
        Action::StartDebugSource {
            port: 10300,
            discipline: SocketDiscipline::Publish,
            interval_ms: 100
        }
    );
    assert_eq!(
        controller.step(Event::Completed),
        Action::OpenReceiver {
            endpoint: endpoint("tcp://host:1", SocketDiscipline::Subscribe, Provenance::Literal)
        }
    );
    let before_exit = advance_to(&mut controller, &Action::Exit { code: 0 });
    assert_eq!(before_exit.last(), Some(&Action::StopDebugSource));
}

#[test]
fn teardown_takes_every_step_whatever_is_reported() {
    let options = Options { debug: true, ..bare() };
    let mut controller = controller_of(options);
    advance_to(&mut controller, &Action::Interrupt);
    assert_eq!(controller.step(failed("interrupt")), Action::Join);
    assert_eq!(controller.step(failed("join")), Action::Report { print_summary: true });
    assert_eq!(controller.step(failed("statistics")), Action::StopDebugSource);
    assert_eq!(controller.step(failed("stop")), Action::Exit { code: 0 });
    assert_eq!(controller.statistics(), None);
    assert_eq!(controller.failure(), None);
}

#[test]
fn a_failed_wait_still_ends_with_exit_code_zero() {
    let mut controller = controller_of(with_url("tcp://host:1"));
    advance_to(&mut controller, &Action::AwaitCompletion);
    assert_eq!(controller.step(failed("thread error")), Action::Interrupt);
    assert_eq!(controller.step(Event::Completed), Action::Join);
    assert_eq!(controller.step(Event::Completed), Action::Report { print_summary: true });
    assert_eq!(
        controller.step(Event::Statistics { snapshot: snapshot_of(0) }),
        Action::Exit { code: 0 }
    );
    assert_eq!(controller.statistics(), Some(snapshot_of(0)));
}

#[test]
fn teardown_twice_shows_the_same_statistics() {
    let mut controller = controller_of(with_url("tcp://host:1"));
    advance_to(&mut controller, &Action::Report { print_summary: true });
    assert_eq!(
        controller.step(Event::Statistics { snapshot: snapshot_of(1) }),
        Action::Exit { code: 0 }
    );
    assert_eq!(controller.teardown(), Action::Exit { code: 0 });
    let first = controller.statistics();
    assert_eq!(controller.teardown(), Action::Exit { code: 0 });
    let second = controller.statistics();
    assert_eq!(first, Some(snapshot_of(1)));
    assert_eq!(second, first);
    assert!(controller.is_closed());
}

#[test]
fn a_closed_controller_answers_every_report_by_leaving() {
    let mut controller = controller_of(with_url("tcp://host:1"));
    advance_to(&mut controller, &Action::Exit { code: 0 });
    assert_eq!(controller.step(Event::Completed), Action::Exit { code: 0 });
    assert_eq!(controller.step(failed("late")), Action::Exit { code: 0 });
    assert_eq!(
        controller.step(Event::Statistics { snapshot: snapshot_of(9) }),
        Action::Exit { code: 0 }
    );
    assert_eq!(controller.statistics(), None);
    assert_eq!(controller.exit_code(), 0);
}

#[test]
fn teardown_on_request_interrupts_a_running_session() {
    let options = Options { time: Some(0), debug: true, ..bare() };
    let mut controller = controller_of(options);
    advance_to(&mut controller, &Action::Sleep { millis: u64::MAX });
    assert_eq!(controller.teardown(), Action::Interrupt);
    assert_eq!(controller.phase(), Phase::TearingDown);
    assert_eq!(controller.teardown(), Action::Interrupt);
    assert_eq!(controller.step(Event::Completed), Action::Join);
    assert_eq!(controller.teardown(), Action::Join);
    assert_eq!(controller.step(Event::Completed), Action::Report { print_summary: true });
    assert_eq!(
        controller.step(Event::Statistics { snapshot: snapshot_of(12) }),
        Action::StopDebugSource
    );
    assert_eq!(controller.teardown(), Action::StopDebugSource);
    assert_eq!(controller.step(Event::Completed), Action::Exit { code: 0 });
    assert_eq!(controller.statistics(), Some(snapshot_of(12)));
}

#[test]
fn teardown_on_request_before_anything_started_leaves_at_once() {
    let mut controller = controller_of(with_url("tcp://host:1"));
    assert_eq!(controller.teardown(), Action::Exit { code: 0 });
    assert!(controller.is_closed());
    assert_eq!(controller.step(Event::Completed), Action::Exit { code: 0 });
}

#[test]
fn teardown_on_request_stops_a_debug_source_without_session() {
    let options = Options { debug: true, ..bare() };
    let mut controller = controller_of(options);
    controller.step(Event::Completed);
    controller.step(Event::Completed);
    assert_eq!(controller.stage(), Stage::AwaitingReceiver);
    assert_eq!(controller.teardown(), Action::StopDebugSource);
    assert_eq!(controller.step(Event::Completed), Action::Exit { code: 0 });
}

#[test]
fn the_controller_refuses_options_without_target_before_any_action() {
    match Controller::open(bare()) {
        Err(error) => assert_eq!(error, SessionError::NoTarget),
        Ok(_) => panic!("a controller was made without a target"),
    }
    let options = Options { messages: Some(1), time: Some(1), ..bare() };
    assert!(Controller::open(options).is_err());
}

#[test]
fn the_summary_is_asked_for_above_level_zero() {
    let options = Options { level: Some(1), ..with_url("tcp://host:1") };
    let mut controller = controller_of(options);
    advance_to(&mut controller, &Action::Join);
    assert_eq!(controller.step(Event::Completed), Action::Report { print_summary: true });

    let options = Options { level: Some(0), ..with_url("tcp://host:1") };
    let mut controller = controller_of(options);
    advance_to(&mut controller, &Action::Join);
    assert_eq!(controller.step(Event::Completed), Action::Report { print_summary: false });
}

#[test]
fn the_configuration_is_kept_by_the_controller() {
    let options = Options { messages: Some(4), size: Some(2), ..with_url("tcp://host:1") };
    let config = SessionConfig::from_options(options).unwrap();
    let controller = Controller::new(config.clone());
    assert_eq!(controller.config(), &config);
    assert_eq!(controller.stage(), Stage::Created);
    assert!(!controller.session_open());
    assert!(!controller.debug_source_active());
    assert_eq!(controller.statistics(), None);
    assert_eq!(controller.exit_code(), 0);
}

#[test]
fn events_give_their_cause_and_snapshot() {
    assert_eq!(failed("why").into_cause(), "why");
    assert_eq!(Event::Completed.into_cause(), "");
    assert_eq!(Event::Statistics { snapshot: snapshot_of(2) }.snapshot(), Some(snapshot_of(2)));
    assert_eq!(Event::Completed.snapshot(), None);
}

/// Runs the controller to its end, answering each action by the report that
/// lets the run go on, and returns every action asked for.
fn run_to_the_end(controller: &mut Controller, named: &str, snapshot: RunStatistics) -> Vec<Action> {
    let mut actions = Vec::new();
    let mut event = Event::Completed;
    for _ in 0..20 {
        let action = controller.step(event);
        event = match &action {
            Action::RequestStream { .. } => Event::Resolved { address: named.to_string() },
            Action::Report { .. } => Event::Statistics { snapshot },
            _ => Event::Completed,
        };
        let last = matches!(action, Action::Exit { .. });
        actions.push(action);
        if last {
            return actions;
        }
    }
    panic!("the run did not end: {:?}", actions);
}

#[test]
fn a_dispatcher_run_follows_its_script() {
    let options = Options {
        channels: vec!["A".to_string()],
        time: Some(50),
        messages: Some(2),
        level: Some(2),
        ..bare()
    };
    let mut controller = controller_of(options);
    let actions = run_to_the_end(&mut controller, "tcp://stream:1", snapshot_of(2));
    assert_eq!(
        actions,
        vec![
            Action::RequestStream { channels: vec!["A".to_string()], disable_compression: true },
            Action::OpenReceiver {
                endpoint: endpoint(
                    "tcp://stream:1",
                    SocketDiscipline::Subscribe,
                    Provenance::Dispatcher
                )
            },
            Action::Run {
                message_bound: Some(2),
                policy: PrintPolicy {
                    main_header: false,
                    data_header: false,
                    metadata: true,
                    data_values: false
                },
                size: 10
            },
            Action::Sleep { millis: 50 },
            Action::AwaitCompletion,
            Action::Interrupt,
            Action::Join,
            Action::Report { print_summary: true },
            Action::Exit { code: 0 },
        ]
    );
    assert_eq!(controller.statistics(), Some(snapshot_of(2)));
}

#[test]
fn a_debug_run_that_pulls_follows_its_script() {
    let options = Options { debug: true, pull: true, time: Some(-1), level: Some(0), ..bare() };
    let mut controller = controller_of(options);
    let actions = run_to_the_end(&mut controller, "", snapshot_of(7));
    assert_eq!(
        actions,
        vec![
            Action::StartDebugSource {
                port: 10300,
                discipline: SocketDiscipline::Push,
                interval_ms: 100
            },
            Action::OpenReceiver {
                endpoint: endpoint(
                    "tcp://127.0.0.1:10300",
                    SocketDiscipline::Pull,
                    Provenance::DebugLoopback
                )
            },
            Action::Run { message_bound: None, policy: nothing(), size: 10 },
            Action::Sleep { millis: u64::MAX },
            Action::Interrupt,
            Action::Join,
            Action::Report { print_summary: false },
            Action::StopDebugSource,
            Action::Exit { code: 0 },
        ]
    );
    assert!(controller.is_closed());
    assert!(!controller.debug_source_active());
}
