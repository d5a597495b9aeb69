use commandant::supervisor::{
    command_ends_service, plan_shutdown, plan_startup_failure, CommandKind, FirstCompletion, ShutdownReason,
};

#[test]
fn listener_error_fails_the_process() {
    let plan = plan_shutdown(FirstCompletion::Listener(Err("address in use".to_string())));
    assert_ne!(plan.exit_code, 0);
    assert_eq!(plan.reason, ShutdownReason::ListenerFailed("address in use".to_string()));
    assert_eq!(plan.message, "web server failed: address in use");
    assert!(plan.fire_signal);
}

#[test]
fn interrupt_is_orderly() {
    let plan = plan_shutdown(FirstCompletion::Interrupt);
    assert_eq!(plan.exit_code, 0);
    assert_eq!(plan.reason, ShutdownReason::Interrupted);
    assert!(plan.fire_signal);
}

#[test]
fn command_and_listener_end_are_orderly() {
    assert_eq!(plan_shutdown(FirstCompletion::Command).exit_code, 0);
    let plan = plan_shutdown(FirstCompletion::Listener(Ok(())));
    assert_eq!(plan.exit_code, 0);
    assert_eq!(plan.message, "web server has stopped");
}

#[test]
fn startup_failure_starts_nothing() {
    let plan = plan_startup_failure("config.yaml missing".to_string());
    assert_eq!(plan.exit_code, 1);
    assert!(!plan.fire_signal);
    assert_eq!(plan.message, "startup failed: config.yaml missing");
}

#[test]
fn only_one_shot_commands_end_the_service() {
    assert!(!command_ends_service(CommandKind::Overwatch));
    for kind in [CommandKind::Benchmark, CommandKind::Stress, CommandKind::Discover, CommandKind::DatabaseOps, CommandKind::AiModel] {
        assert!(command_ends_service(kind));
    }
}
