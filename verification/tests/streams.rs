use topology_reporter::kinds::{ActivityType, ServiceLanguage, ServiceType};
use topology_reporter::lifecycle::{LoopAction, LoopEvent, Phase, ShutdownCoordinator, Signal};
use topology_reporter::messages::{
    ActivityReport, RegisterBody, RegisterReply, TopologyProxyConfig,
};
use topology_reporter::proxy_client::{RegistrationStep, TopologyProxyClient};
use topology_reporter::reporter::{
    HandleReply, RegisterPlan, ServiceHandle, TopologyReporter, TopologyReporterOptions,
};

fn options(enable_activity: bool) -> TopologyReporterOptions {
    TopologyReporterOptions {
        topology_address: "127.0.0.1:50053".to_string(),
        service_name: "calculator-client-rust".to_string(),
        service_type: ServiceType::Client,
        language: ServiceLanguage::Rust,
        version: Some("0.1.0".to_string()),
        address: None,
        host: Some("box".to_string()),
        enable_activity,
    }
}

fn handle(id: &str, interval: i32) -> HandleReply {
    HandleReply::Answered(Some(ServiceHandle {
        service_id: id.to_string(),
        heartbeat_interval_ms: interval,
        timeout_multiplier: 3,
    }))
}

fn report(target: &str, timestamp_ms: Option<i64>) -> ActivityReport {
    ActivityReport {
        target_service: target.to_string(),
        activity_type: ActivityType::ResponseReceived,
        timestamp_ms,
        latency_ms: Some(3),
        method: None,
        success: Some(false),
        error_message: Some("boom".to_string()),
    }
}

#[test]
fn a_new_reporter_holds_nothing() {
    let reporter = TopologyReporter::new(options(true));
    let status = reporter.status();
    assert_eq!(status.service_id, None);
    assert_eq!(status.heartbeat_interval_ms, None);
    assert!(!status.activity_enabled);
    assert_eq!(reporter.pending_len(), 0);
    assert_eq!(reporter.heartbeat_period_ms(), None);
    assert_eq!(reporter.topology_url(), "http://127.0.0.1:50053");
}

#[test]
fn registering_starts_heartbeats_and_activity() {
    let mut reporter = TopologyReporter::new(options(true));
    match reporter.register() {
        RegisterPlan::Send(request) => {
            assert_eq!(request.service_name, "calculator-client-rust");
            assert_eq!(request.service_type, ServiceType::Client);
            assert_eq!(request.language, ServiceLanguage::Rust);
            assert_eq!(request.version.as_deref(), Some("0.1.0"));
            assert_eq!(request.address, None);
            assert_eq!(request.host.as_deref(), Some("box"));
        }
        other => panic!("unexpected {:?}", other),
    }
    let started = reporter.complete_register(handle("svc-1", 2500)).expect("registered");
    assert_eq!(started.handle.service_id, "svc-1");
    assert_eq!(started.handle.heartbeat_interval_ms, 2500);
    assert_eq!(started.handle.timeout_multiplier, 3);
    assert_eq!(started.first_heartbeat.service_id, "svc-1");
    assert_eq!(started.first_heartbeat.sequence, 1);
    assert!(started.open_activity_stream);
    let status = reporter.status();
    assert_eq!(status.service_id.as_deref(), Some("svc-1"));
    assert_eq!(status.heartbeat_interval_ms, Some(2500));
    assert!(status.activity_enabled);
    assert_eq!(reporter.heartbeat_period_ms(), Some(2500));

    match reporter.register() {
        RegisterPlan::Already(handle) => {
            assert_eq!(handle.service_id, "svc-1");
            assert_eq!(handle.heartbeat_interval_ms, 2500);
            assert_eq!(handle.timeout_multiplier, 0);
        }
        other => panic!("unexpected {:?}", other),
    }
}

#[test]
fn a_registration_without_handle_fails_and_changes_nothing() {
    let mut reporter = TopologyReporter::new(options(true));
    assert_eq!(
        reporter.complete_register(HandleReply::Answered(None)).err(),
        Some("Topology registration failed: missing service handle.".to_string())
    );
    assert_eq!(
        reporter.complete_register(HandleReply::Failed("unavailable".to_string())).err(),
        Some("unavailable".to_string())
    );
    assert_eq!(reporter.status().service_id, None);
    assert!(reporter.next_heartbeat().is_none());
    assert!(matches!(reporter.register(), RegisterPlan::Send(_)));
}

#[test]
fn one_registration_at_a_time() {
    let mut reporter = TopologyReporter::new(options(true));
    assert!(matches!(reporter.register(), RegisterPlan::Send(_)));
    assert!(matches!(reporter.register(), RegisterPlan::InFlight));
    assert!(reporter.complete_register(HandleReply::Failed("down".to_string())).is_err());
    assert!(matches!(reporter.register(), RegisterPlan::Send(_)));
    assert!(matches!(reporter.register(), RegisterPlan::InFlight));
    assert!(reporter.shutdown().is_none());
    assert!(matches!(reporter.register(), RegisterPlan::InFlight));
    reporter.stream_failed();
    assert!(matches!(reporter.register(), RegisterPlan::InFlight));
    assert!(!reporter.report_activity(report("a", None), 1));
    assert!(matches!(reporter.register(), RegisterPlan::InFlight));
    let _ = reporter.complete_register(handle("svc-1", 10));
    assert!(matches!(reporter.register(), RegisterPlan::Already(_)));
}

#[test]
fn shutdown_without_identity_changes_nothing() {
    let mut reporter = TopologyReporter::new(options(true));
    let _ = reporter.complete_register(handle("svc-1", 1000));
    assert!(reporter.report_activity(report("a", None), 5));
    assert_eq!(reporter.next_heartbeat().map(|beat| beat.sequence), Some(2));
    assert!(reporter.shutdown().is_some());
    let before = reporter.status();
    assert!(reporter.shutdown().is_none());
    reporter.stream_failed();
    let after = reporter.status();
    assert_eq!(after.service_id, before.service_id);
    assert_eq!(after.heartbeat_interval_ms, before.heartbeat_interval_ms);
    assert_eq!(after.activity_enabled, before.activity_enabled);
    assert_eq!(reporter.pending_len(), 1);
    assert!(matches!(reporter.register(), RegisterPlan::Send(_)));
}

#[test]
fn a_registration_granted_after_the_signal_is_withdrawn_once() {
    let config = TopologyProxyConfig::with_defaults(
        "http://127.0.0.1:50055".to_string(),
        "svc".to_string(),
        ServiceType::Server,
        ServiceLanguage::Rust,
    );
    let mut session = TopologyProxyClient::new(config, 0);
    let mut coordinator = ShutdownCoordinator::new();
    assert_eq!(coordinator.on_event(LoopEvent::Tick), LoopAction::EnsureRegistered);
    assert!(matches!(session.ensure_registered(0), RegistrationStep::SendRegister(_)));
    assert_eq!(coordinator.on_event(LoopEvent::Signal(Signal::Terminate)), LoopAction::Unregister);
    assert_eq!(coordinator.on_event(LoopEvent::Tick), LoopAction::Wait);
    let granted = RegisterReply::Answered {
        status: 200,
        body: RegisterBody::Handle { service_id: "late".to_string() },
    };
    assert!(session.complete_registration(granted, 30).is_ok());
    let mut unregister_calls = 0;
    if let Some(request) = session.unregister() {
        assert_eq!(request.service_id, "late");
        unregister_calls += 1;
    }
    if session.unregister().is_some() {
        unregister_calls += 1;
    }
    assert_eq!(unregister_calls, 1);
    assert_eq!(coordinator.on_event(LoopEvent::UnregisterDone), LoopAction::Exit);
    assert_eq!(coordinator.phase(), Phase::Stopped);
}

#[test]
fn heartbeats_are_numbered_upwards_from_one() {
    let mut reporter = TopologyReporter::new(options(false));
    assert!(reporter.next_heartbeat().is_none());
    let started = reporter.complete_register(handle("svc-1", 1000)).expect("registered");
    assert_eq!(started.first_heartbeat.sequence, 1);
    assert!(!started.open_activity_stream);
    for expected in 2..50i64 {
        let beat = reporter.next_heartbeat().expect("a heartbeat");
        assert_eq!(beat.sequence, expected);
        assert_eq!(beat.service_id, "svc-1");
    }
    reporter.stream_failed();
    assert!(reporter.next_heartbeat().is_none());
    let started = reporter.complete_register(handle("svc-2", 1000)).expect("registered");
    assert_eq!(started.first_heartbeat.sequence, 1);
    assert_eq!(reporter.next_heartbeat().map(|beat| beat.sequence), Some(2));
}

#[test]
fn no_timer_for_an_interval_of_zero_or_less() {
    let mut reporter = TopologyReporter::new(options(false));
    let _ = reporter.complete_register(handle("svc-1", 0));
    assert_eq!(reporter.heartbeat_period_ms(), None);
    let mut reporter = TopologyReporter::new(options(false));
    let _ = reporter.complete_register(handle("svc-1", -5));
    assert_eq!(reporter.heartbeat_period_ms(), None);
}

#[test]
fn a_report_without_identity_is_dropped() {
    let mut reporter = TopologyReporter::new(options(true));
    assert!(!reporter.report_activity(report("a", None), 1));
    assert_eq!(reporter.pending_len(), 0);
    assert!(reporter.take_pending().is_empty());
}

#[test]
fn a_report_with_activity_disabled_is_dropped() {
    let mut reporter = TopologyReporter::new(options(false));
    let _ = reporter.complete_register(handle("svc-1", 1000));
    assert!(!reporter.report_activity(report("a", None), 1));
    assert_eq!(reporter.pending_len(), 0);
    assert!(!reporter.status().activity_enabled);
}

#[test]
fn a_report_gets_the_identity_and_a_timestamp() {
    let mut reporter = TopologyReporter::new(options(true));
    let _ = reporter.complete_register(handle("svc-1", 1000));
    assert!(reporter.report_activity(report("a", None), 1_700_000_000_000));
    assert!(reporter.report_activity(report("b", Some(42)), 1_700_000_000_001));
    assert_eq!(reporter.pending_len(), 2);
    let batch = reporter.take_pending();
    assert_eq!(reporter.pending_len(), 0);
    assert_eq!(batch.len(), 2);
    assert_eq!(batch[0].service_id, "svc-1");
    assert_eq!(batch[0].target_service, "a");
    assert_eq!(batch[0].activity_type, ActivityType::ResponseReceived);
    assert_eq!(batch[0].timestamp_ms, Some(1_700_000_000_000));
    assert_eq!(batch[0].latency_ms, Some(3));
    assert_eq!(batch[0].method, None);
    assert_eq!(batch[0].success, Some(false));
    assert_eq!(batch[0].batch_size, None);
    assert_eq!(batch[0].error_message.as_deref(), Some("boom"));
    assert_eq!(batch[1].target_service, "b");
    assert_eq!(batch[1].timestamp_ms, Some(42));
}

#[test]
fn a_thousand_events_keep_their_order() {
    let mut reporter = TopologyReporter::new(options(true));
    let _ = reporter.complete_register(handle("svc-1", 1000));
    let mut delivered = Vec::new();
    for n in 0..1000i64 {
        assert!(reporter.report_activity(report(&format!("target-{}", n), Some(n)), 0));
        if n % 137 == 0 {
            delivered.extend(reporter.take_pending());
        }
    }
    delivered.extend(reporter.take_pending());
    assert_eq!(delivered.len(), 1000);
    for (n, event) in delivered.iter().enumerate() {
        assert_eq!(event.timestamp_ms, Some(n as i64));
        assert_eq!(event.target_service, format!("target-{}", n));
    }
}

#[test]
fn shutdown_twice_unregisters_once() {
    let mut reporter = TopologyReporter::new(options(true));
    let _ = reporter.complete_register(handle("svc-1", 1000));
    assert!(reporter.report_activity(report("a", None), 5));
    let first = reporter.shutdown();
    assert_eq!(first.map(|request| request.service_id), Some("svc-1".to_string()));
    assert!(reporter.shutdown().is_none());
    let status = reporter.status();
    assert_eq!(status.service_id, None);
    assert_eq!(status.heartbeat_interval_ms, None);
    assert!(!status.activity_enabled);
    assert!(!reporter.report_activity(report("b", None), 6));
    assert_eq!(reporter.take_pending().len(), 1);
}

#[test]
fn a_failed_stream_asks_for_a_new_registration() {
    let mut reporter = TopologyReporter::new(options(true));
    let _ = reporter.complete_register(handle("svc-1", 1000));
    reporter.stream_failed();
    assert_eq!(reporter.status().service_id, None);
    assert!(!reporter.report_activity(report("a", None), 5));
    assert!(matches!(reporter.register(), RegisterPlan::Send(_)));
    let _ = reporter.complete_register(handle("svc-2", 1000));
    assert_eq!(reporter.status().service_id.as_deref(), Some("svc-2"));
    assert!(reporter.report_activity(report("a", None), 5));
}

#[test]
fn the_loop_runs_until_a_signal_then_unregisters_once() {
    let mut coordinator = ShutdownCoordinator::new();
    assert_eq!(coordinator.phase(), Phase::Running);
    assert!(coordinator.is_running());
    assert_eq!(coordinator.on_event(LoopEvent::Tick), LoopAction::EnsureRegistered);
    assert_eq!(coordinator.on_event(LoopEvent::UnregisterDone), LoopAction::Wait);
    assert_eq!(coordinator.phase(), Phase::Running);
    assert_eq!(coordinator.on_event(LoopEvent::Signal(Signal::Terminate)), LoopAction::Unregister);
    assert_eq!(coordinator.phase(), Phase::Draining);
    assert!(!coordinator.is_running());
    assert_eq!(coordinator.on_event(LoopEvent::Signal(Signal::Interrupt)), LoopAction::Wait);
    assert_eq!(coordinator.on_event(LoopEvent::Tick), LoopAction::Wait);
    assert_eq!(coordinator.phase(), Phase::Draining);
    assert_eq!(coordinator.on_event(LoopEvent::UnregisterDone), LoopAction::Exit);
    assert_eq!(coordinator.phase(), Phase::Stopped);
    assert_eq!(coordinator.on_event(LoopEvent::Tick), LoopAction::Exit);
    assert_eq!(coordinator.on_event(LoopEvent::Signal(Signal::Interrupt)), LoopAction::Exit);
    assert_eq!(coordinator.phase(), Phase::Stopped);
}

#[test]
fn a_signal_during_registration_still_stops_the_service() {
    let config = TopologyProxyConfig::with_defaults(
        "http://127.0.0.1:50055".to_string(),
        "svc".to_string(),
        ServiceType::Server,
        ServiceLanguage::Rust,
    );
    let mut session = TopologyProxyClient::new(config, 0);
    let mut coordinator = ShutdownCoordinator::new();
    let mut unregister_calls = 0;

    assert_eq!(coordinator.on_event(LoopEvent::Tick), LoopAction::EnsureRegistered);
    assert!(matches!(session.ensure_registered(0), RegistrationStep::SendRegister(_)));
    // The signal arrives while the call is in flight; the call then fails.
    let action = coordinator.on_event(LoopEvent::Signal(Signal::Interrupt));
    let _ = session.complete_registration(RegisterReply::Unreachable("down".to_string()), 10);
    assert_eq!(action, LoopAction::Unregister);
    if session.unregister().is_some() {
        unregister_calls += 1;
    }
    assert_eq!(coordinator.on_event(LoopEvent::Signal(Signal::Terminate)), LoopAction::Wait);
    assert_eq!(coordinator.on_event(LoopEvent::UnregisterDone), LoopAction::Exit);
    assert_eq!(coordinator.phase(), Phase::Stopped);
    assert!(unregister_calls <= 1);
    assert!(session.unregister().is_none());
}
