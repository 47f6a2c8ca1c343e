use topology_reporter::kinds::{ActivityType, ServiceLanguage, ServiceType};
use topology_reporter::lifecycle::{Phase, Signal};
use topology_reporter::liveness::{LivenessLoop, LoopCommand};
use topology_reporter::messages::{
    ActivityReport, CallReply, RegisterBody, RegisterReply, TopologyProxyConfig,
    TopologyProxyError,
};

fn liveness(now: u64) -> LivenessLoop {
    LivenessLoop::new(
        TopologyProxyConfig::with_defaults(
            "http://127.0.0.1:50055".to_string(),
            "svc".to_string(),
            ServiceType::Server,
            ServiceLanguage::Rust,
        ),
        now,
    )
}

fn granted(id: &str) -> RegisterReply {
    RegisterReply::Answered {
        status: 200,
        body: RegisterBody::Handle { service_id: id.to_string() },
    }
}

fn refused() -> RegisterReply {
    RegisterReply::Unreachable("connection refused".to_string())
}

fn report() -> ActivityReport {
    ActivityReport {
        target_service: "calculator-server".to_string(),
        activity_type: ActivityType::Error,
        timestamp_ms: Some(9),
        latency_ms: None,
        method: None,
        success: Some(false),
        error_message: Some("boom".to_string()),
    }
}

fn registered(id: &str) -> LivenessLoop {
    let mut liveness = liveness(0);
    assert!(matches!(liveness.on_tick(0), LoopCommand::Register(_)));
    let (command, outcome) = liveness.on_registration_ended(granted(id), 0);
    assert!(matches!(command, LoopCommand::Idle));
    assert!(matches!(outcome, Ok(true)));
    liveness
}

#[test]
fn the_loop_registers_on_its_first_tick() {
    let mut liveness = liveness(40);
    assert_eq!(liveness.phase(), Phase::Running);
    match liveness.on_tick(40) {
        LoopCommand::Register(request) => {
            assert_eq!(request.service_name, "svc");
            assert_eq!(request.service_type, "SERVICE_TYPE_SERVER");
        }
        other => panic!("unexpected {:?}", other),
    }
    assert!(matches!(liveness.on_tick(41), LoopCommand::Idle));
    let (command, outcome) = liveness.on_registration_ended(granted("svc-1"), 50);
    assert!(matches!(command, LoopCommand::Idle));
    assert!(matches!(outcome, Ok(true)));
    assert_eq!(liveness.session().service_id(), Some("svc-1"));
    assert!(matches!(liveness.on_tick(2050), LoopCommand::Idle));
    match liveness.on_tick(5050) {
        LoopCommand::Heartbeat(request) => assert_eq!(request.service_id, "svc-1"),
        other => panic!("unexpected {:?}", other),
    }
    let (command, outcome) = liveness.on_heartbeat_ended(CallReply::Status(200), 5060);
    assert!(matches!(command, LoopCommand::Idle));
    assert!(matches!(outcome, Ok(true)));
    assert_eq!(liveness.session().last_heartbeat_at(), Some(5060));
}

#[test]
fn three_failed_ticks_then_a_registration() {
    let mut liveness = liveness(0);
    let mut now = 0;
    let mut delays = Vec::new();
    for _ in 0..3 {
        assert!(matches!(liveness.on_tick(now), LoopCommand::Register(_)));
        delays.push(liveness.session().retry_delay());
        let (command, outcome) = liveness.on_registration_ended(refused(), now);
        assert!(matches!(command, LoopCommand::Idle));
        assert!(matches!(outcome, Err(TopologyProxyError::Http(_))));
        assert_eq!(liveness.session().service_id(), None);
        now = liveness.session().next_retry_at();
        assert!(matches!(liveness.on_tick(now - 1), LoopCommand::Idle));
    }
    assert_eq!(delays, vec![1, 2, 4]);
    assert!(matches!(liveness.on_tick(now), LoopCommand::Register(_)));
    let (_, outcome) = liveness.on_registration_ended(granted("svc-4"), now);
    assert!(matches!(outcome, Ok(true)));
    assert_eq!(liveness.session().service_id(), Some("svc-4"));
    assert_eq!(liveness.session().retry_delay(), 1);
}

#[test]
fn a_signal_withdraws_the_registration_once() {
    let mut liveness = registered("svc-1");
    match liveness.on_signal(Signal::Terminate) {
        LoopCommand::Unregister(request) => assert_eq!(request.service_id, "svc-1"),
        other => panic!("unexpected {:?}", other),
    }
    assert_eq!(liveness.phase(), Phase::Draining);
    assert_eq!(liveness.session().service_id(), None);
    assert!(matches!(liveness.on_signal(Signal::Interrupt), LoopCommand::Idle));
    assert!(matches!(liveness.on_signal(Signal::Terminate), LoopCommand::Idle));
    assert!(matches!(liveness.on_tick(9000), LoopCommand::Idle));
    assert!(liveness.report_activity(report()).is_none());
    let (command, outcome) = liveness.on_unregister_ended(CallReply::Status(200));
    assert!(matches!(command, LoopCommand::Exit));
    assert!(outcome.is_ok());
    assert_eq!(liveness.phase(), Phase::Stopped);
    assert!(matches!(liveness.on_tick(9000), LoopCommand::Exit));
    assert!(matches!(liveness.on_signal(Signal::Interrupt), LoopCommand::Exit));
}

#[test]
fn a_failed_unregister_call_still_stops_the_loop() {
    let mut liveness = registered("svc-1");
    assert!(matches!(liveness.on_signal(Signal::Interrupt), LoopCommand::Unregister(_)));
    let (command, outcome) =
        liveness.on_unregister_ended(CallReply::Unreachable("registry down".to_string()));
    assert!(matches!(command, LoopCommand::Exit));
    match outcome {
        Err(TopologyProxyError::Http(message)) => assert_eq!(message, "registry down"),
        other => panic!("unexpected {:?}", other),
    }
    assert_eq!(liveness.phase(), Phase::Stopped);
}

#[test]
fn a_signal_without_identity_stops_at_once() {
    let mut liveness = liveness(0);
    assert!(matches!(liveness.on_signal(Signal::Interrupt), LoopCommand::Exit));
    assert_eq!(liveness.phase(), Phase::Stopped);
    let (command, _) = liveness.on_unregister_ended(CallReply::Status(200));
    assert!(matches!(command, LoopCommand::Exit));
}

#[test]
fn a_signal_during_a_registration_that_fails() {
    let mut liveness = liveness(0);
    assert!(matches!(liveness.on_tick(0), LoopCommand::Register(_)));
    assert!(matches!(liveness.on_signal(Signal::Terminate), LoopCommand::Idle));
    assert_eq!(liveness.phase(), Phase::Draining);
    assert!(matches!(liveness.on_tick(2000), LoopCommand::Idle));
    assert!(matches!(liveness.on_signal(Signal::Interrupt), LoopCommand::Idle));
    let (command, outcome) = liveness.on_registration_ended(refused(), 2500);
    assert!(matches!(command, LoopCommand::Exit));
    assert!(outcome.is_err());
    assert_eq!(liveness.phase(), Phase::Stopped);
}

#[test]
fn a_signal_during_a_registration_that_is_granted() {
    let mut liveness = liveness(0);
    let mut unregister_calls = 0;
    assert!(matches!(liveness.on_tick(0), LoopCommand::Register(_)));
    assert!(matches!(liveness.on_signal(Signal::Terminate), LoopCommand::Idle));
    let (command, outcome) = liveness.on_registration_ended(granted("late"), 2500);
    assert!(matches!(outcome, Ok(true)));
    match command {
        LoopCommand::Unregister(request) => {
            assert_eq!(request.service_id, "late");
            unregister_calls += 1;
        }
        other => panic!("unexpected {:?}", other),
    }
    assert_eq!(liveness.phase(), Phase::Draining);
    let (command, outcome) = liveness.on_registration_ended(granted("stale"), 2600);
    assert!(matches!(command, LoopCommand::Idle));
    assert!(matches!(outcome, Ok(false)));
    assert_eq!(liveness.session().service_id(), None);
    if matches!(liveness.on_signal(Signal::Interrupt), LoopCommand::Unregister(_)) {
        unregister_calls += 1;
    }
    let (command, _) = liveness.on_unregister_ended(CallReply::Status(500));
    assert!(matches!(command, LoopCommand::Exit));
    assert_eq!(liveness.phase(), Phase::Stopped);
    assert_eq!(unregister_calls, 1);
}

#[test]
fn a_signal_during_a_heartbeat() {
    let mut liveness = registered("svc-1");
    assert!(matches!(liveness.on_tick(5000), LoopCommand::Heartbeat(_)));
    assert!(matches!(liveness.on_signal(Signal::Terminate), LoopCommand::Idle));
    let (command, outcome) = liveness.on_heartbeat_ended(CallReply::Status(200), 5100);
    assert!(matches!(outcome, Ok(true)));
    assert!(matches!(command, LoopCommand::Unregister(_)));
    let (command, _) = liveness.on_unregister_ended(CallReply::Status(200));
    assert!(matches!(command, LoopCommand::Exit));

    let mut liveness = registered("svc-1");
    assert!(matches!(liveness.on_tick(5000), LoopCommand::Heartbeat(_)));
    assert!(matches!(liveness.on_signal(Signal::Terminate), LoopCommand::Idle));
    let (command, outcome) = liveness.on_heartbeat_ended(CallReply::Status(503), 5100);
    assert!(outcome.is_err());
    assert!(matches!(command, LoopCommand::Exit));
    assert_eq!(liveness.phase(), Phase::Stopped);
}

#[test]
fn activity_through_the_loop() {
    let mut liveness = liveness(0);
    assert!(liveness.report_activity(report()).is_none());
    let mut liveness = registered("svc-1");
    let request = liveness.report_activity(report()).expect("a request");
    assert_eq!(request.service_id, "svc-1");
    assert_eq!(request.activity_type, "ACTIVITY_TYPE_ERROR");
    assert_eq!(request.timestamp_ms, Some(9));
    assert!(liveness.on_activity_ended(CallReply::Status(200), 10).is_ok());
    assert_eq!(liveness.session().service_id(), Some("svc-1"));
    let outcome = liveness.on_activity_ended(CallReply::Status(500), 20);
    match outcome {
        Err(error) => {
            assert_eq!(error.message(), "Activity report failed: 500 Internal Server Error")
        }
        Ok(()) => panic!("expected an error"),
    }
    assert_eq!(liveness.session().service_id(), None);
    assert_eq!(liveness.session().next_retry_at(), 1020);
    assert!(matches!(liveness.on_tick(1019), LoopCommand::Idle));
    assert!(matches!(liveness.on_tick(1020), LoopCommand::Register(_)));
}

#[test]
fn a_late_activity_reply_changes_nothing_after_the_withdrawal() {
    let mut liveness = registered("svc-1");
    assert!(matches!(liveness.on_signal(Signal::Terminate), LoopCommand::Unregister(_)));
    let before = liveness.session().next_retry_at();
    assert!(liveness.on_activity_ended(CallReply::Status(500), 77).is_err());
    assert_eq!(liveness.session().next_retry_at(), before);
    assert_eq!(liveness.session().retry_delay(), 1);
}
