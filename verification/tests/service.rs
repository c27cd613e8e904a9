use chrono::{Duration, Utc};
use lockin::enforcement_loop::EnforcementLoop;
use lockin::{
    EnforcementAction, EnforcementEngine, IpcChannel, LockDuration, LockError, LockRule, LockState,
    ProcessInfo, ProcessKiller, ServiceError, ServiceManager, ServiceState, WindowsServiceConfig,
};

#[test]
fn service_manager_creates_with_default_config() {
    let manager = ServiceManager::new().expect("Failed to create ServiceManager");
    let config = manager.config();

    assert_eq!(config.service_name, "LockinService");
    assert!(!config.display_name.is_empty());
    assert!(!config.description.is_empty());
}

#[test]
fn service_manager_creates_with_custom_config() {
    let custom_config = WindowsServiceConfig {
        service_name: "TestService".to_string(),
        display_name: "Test Service".to_string(),
        description: "Test service for integration tests".to_string(),
    };

    let manager =
        ServiceManager::with_config(custom_config.clone()).expect("Failed to create ServiceManager");
    let config = manager.config();

    assert_eq!(config.service_name, "TestService");
    assert_eq!(config.display_name, "Test Service");
}

#[test]
fn service_manager_register_mock() {
    let manager = ServiceManager::new().expect("Failed to create ServiceManager");
    let result = manager.register();

    match result {
        Ok(()) => {}
        Err(e) => {
            let msg = format!("{:?}", e);
            assert!(
                msg.contains("admin") || msg.contains("already exist"),
                "Error should be admin-related or service conflict: {}",
                msg
            );
        }
    }
}

#[test]
fn service_manager_unregister_mock() {
    let manager = ServiceManager::new().expect("Failed to create ServiceManager");
    let result = manager.unregister();

    match result {
        Ok(()) => {}
        Err(e) => {
            let msg = format!("{:?}", e);
            assert!(
                msg.contains("admin") || msg.contains("not found") || msg.contains("Unable"),
                "Error should be admin-related or service not found: {}",
                msg
            );
        }
    }
}

#[test]
fn service_control_handler_setup_mock() {
    let manager = ServiceManager::new().expect("Failed to create ServiceManager");
    let result = manager.setup_control_handler();

    assert!(result.is_ok(), "setup_control_handler() should succeed");
}

#[test]
fn service_state_transitions() {
    let mut manager = ServiceManager::new().expect("Failed to create ServiceManager");

    assert_eq!(manager.get_state().expect("Failed to get state"), ServiceState::Stopped);

    manager.start_service().expect("Failed to start service");
    assert_eq!(manager.get_state().expect("Failed to get state"), ServiceState::Running);

    manager.pause_service().expect("Failed to pause service");
    assert_eq!(manager.get_state().expect("Failed to get state"), ServiceState::Paused);

    manager.resume_service().expect("Failed to resume service");
    assert_eq!(manager.get_state().expect("Failed to get state"), ServiceState::Running);

    manager.stop_service().expect("Failed to stop service");
    assert_eq!(manager.get_state().expect("Failed to get state"), ServiceState::Stopped);
}

#[test]
fn process_killer_terminate_mock() {
    let result = ProcessKiller::terminate(1234, "test termination");

    assert!(result.is_ok(), "terminate() should succeed in mock mode");
}

#[test]
fn process_killer_terminate_with_respawn_detection_mock() {
    let process = ProcessInfo::new(1234, "notepad.exe", "C:\\Windows\\notepad.exe")
        .expect("Failed to create ProcessInfo");

    let result = ProcessKiller::terminate_with_respawn_detection(&process, "respawn test");

    assert!(result.is_ok(), "terminate_with_respawn_detection() should succeed in mock mode");
}

#[test]
fn enforcement_loop_creates_successfully() {
    let duration = LockDuration::from_days(1).expect("Failed to create LockDuration");
    let rule = LockRule::new(&"notepad.exe".to_string(), duration).expect("Failed to create LockRule");
    let now = Utc::now();
    let lock_state = LockState::new(rule, now.timestamp_millis()).expect("Failed to create LockState");

    let grace_period = Duration::seconds(30);
    let engine = EnforcementEngine::new(lock_state, grace_period.num_milliseconds())
        .expect("Failed to create EnforcementEngine");

    let loop_result = EnforcementLoop::new(engine);

    assert!(loop_result.is_ok(), "EnforcementLoop should create successfully");
}

#[test]
fn service_manager_default_trait() {
    let manager1 = ServiceManager::default();
    let manager2 = ServiceManager::default();

    assert_eq!(manager1.config().service_name, manager2.config().service_name);
    assert_eq!(manager1.config().display_name, manager2.config().display_name);
}

#[test]
fn invalid_transitions_are_refused() {
    let mut manager = ServiceManager::default();
    match manager.pause_service() {
        Err(ServiceError::InvalidStateTransition { from, to }) => {
            assert_eq!(from, ServiceState::Stopped);
            assert_eq!(to, ServiceState::Paused);
        }
        other => panic!("unexpected {:?}", other),
    }
    assert!(manager.resume_service().is_err());
    assert!(manager.stop_service().is_err());
    assert_eq!(manager.get_state().unwrap(), ServiceState::Stopped);
    manager.start_service().unwrap();
    assert!(manager.start_service().is_err());
    assert!(manager.resume_service().is_err());
    manager.stop_service().unwrap();
    assert_eq!(manager.get_state().unwrap(), ServiceState::Stopped);
}

#[test]
fn exit_codes() {
    assert_eq!(ServiceError::ShutdownSignal.exit_code(), 0);
    assert_eq!(ServiceError::IpcError("x".to_string()).exit_code(), 1);
    let core: ServiceError = LockError::NoTimeAnchor { reason: "r".to_string() }.into();
    assert_eq!(core.exit_code(), 1);
    assert!(matches!(core, ServiceError::CoreError(LockError::NoTimeAnchor { .. })));
    assert!(IpcChannel::new().is_ok());
}

#[test]
fn loop_round_decisions() {
    let rule = LockRule::new("notepad.exe", LockDuration::from_days(1).unwrap()).unwrap();
    let start = 1_000_000;
    let lock = LockState::new_at(rule, start, start).unwrap();
    let end = lock.end_time();
    let engine = EnforcementEngine::new_at(lock, 5_000, start).unwrap();
    let mut lp = EnforcementLoop::new(engine).unwrap();
    let a = ProcessInfo::new(1, "notepad.exe", "c:\\notepad.exe").unwrap();
    let b = ProcessInfo::new(2, "NOTEPAD.EXE", "c:\\notepad.exe").unwrap();

    assert!(lp.step_ready_at(&a, start));
    let actions = lp.decide_at(&[a.clone(), b.clone()], start);
    assert_eq!(
        actions,
        vec![EnforcementAction::Warn { time_remaining_ms: 5_000 }, EnforcementAction::Terminate]
    );
    let actions = lp.decide_at(&[a.clone()], start + 1_000);
    assert_eq!(actions, vec![EnforcementAction::Warn { time_remaining_ms: 4_000 }]);
    let actions = lp.decide_at(&[a.clone()], end);
    assert_eq!(actions, vec![EnforcementAction::Ignore]);
    assert_eq!(lp.engine().respawn_detector().termination_log().len(), 1);
    assert!(lp.step_ready_at(&a, lockin::clock::MAX_INSTANT_MS));
    assert!(!lp.step_ready_at(&a, lockin::clock::MIN_INSTANT_MS - 1));

    // Once begun, a grace period whose end is not a representable instant
    // holds up only the decisions that go by it.
    let rule = LockRule::new("notepad.exe", LockDuration::from_days(1).unwrap()).unwrap();
    let lock = LockState::new_at(rule, start, start).unwrap();
    let mut huge = EnforcementLoop::new(EnforcementEngine::new_at(lock, i64::MAX, start).unwrap()).unwrap();
    assert!(huge.step_ready_at(&a, start));
    assert_eq!(
        huge.decide_at(&[a.clone()], start),
        vec![EnforcementAction::Warn { time_remaining_ms: i64::MAX as u64 }]
    );
    assert!(!huge.step_ready_at(&a, start + 1));
    assert!(huge.step_ready_at(&b, start + 1)); // a respawn: terminated at once
    assert!(huge.step_ready_at(&a, end)); // the lock has ended: ignored
    assert!(huge.engine().decision_ready_at(&b, start + 1));
    assert!(!huge.engine().decision_ready_at(&a, start + 1));
}

#[test]
fn process_killer_reports_missing_process() {
    match ProcessKiller::terminate(0, "no such process") {
        Err(ServiceError::ProcessTerminationFailed { pid, reason }) => {
            assert_eq!(pid, 0);
            assert_eq!(reason, "Process not found");
        }
        other => panic!("unexpected {:?}", other),
    }
    let process = ProcessInfo { pid: 0, exe_name: "ghost.exe".to_string(), exe_path: "c:\\ghost.exe".to_string() };
    assert!(matches!(
        ProcessKiller::terminate_with_respawn_detection(&process, "respawn test"),
        Err(ServiceError::ProcessTerminationFailed { pid: 0, .. })
    ));
}
