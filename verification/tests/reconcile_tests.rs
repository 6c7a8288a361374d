use docker_process_isolation_patcher::cmdline::CmdError;
use docker_process_isolation_patcher::policy::{patch_marker, target_service_name};
use docker_process_isolation_patcher::reconcile::{
    build_patched_config, step, Action, Dependency, Event, FatalError, LoopState, OpenOutcome,
    PatchedConfig, ServiceConfig, ServiceState, TickSignal,
};

fn unpatched_config(launch_command: &str) -> ServiceConfig {
    ServiceConfig {
        display_name: "Docker Engine".to_string(),
        service_type: 0x10,
        start_type: 2,
        error_control: 1,
        launch_command: launch_command.to_string(),
        dependencies: vec![Dependency { is_group: false, name: "http".to_string() }],
    }
}

fn assert_await_tick(action: &Action) {
    assert_eq!(*action, Action::AwaitTick);
}

/// Drives one full successful patch, from the tick that finds the service
/// Running through the restart, and returns the final state and the applied
/// configuration.
fn drive_patch(st: LoopState, cfg: ServiceConfig) -> (LoopState, PatchedConfig) {
    let (st, action) = step(st, Event::Tick(TickSignal::Elapsed));
    assert_eq!(action, Action::OpenTarget);
    let (st, action) = step(st, Event::Open(OpenOutcome::Opened));
    assert_eq!(action, Action::QueryStatus);
    let (st, action) = step(st, Event::Status(ServiceState::Running));
    assert_eq!(action, Action::DebounceThenQueryStatus);
    let (st, action) = step(st, Event::Status(ServiceState::Running));
    assert_eq!(action, Action::QueryConfig);
    let (st, action) = step(st, Event::Config(cfg));
    assert_eq!(action, Action::StopThenQueryStatus);
    let (st, action) = step(st, Event::Status(ServiceState::StopPending));
    assert_eq!(action, Action::PollStatusSoon);
    let (st, action) = step(st, Event::Status(ServiceState::Stopped));
    let plan = match action {
        Action::ApplyConfig(plan) => plan,
        other => panic!("expected a configuration change, got {:?}", other),
    };
    let (st, action) = step(st, Event::ConfigChanged);
    assert_eq!(action, Action::SetServiceDescription);
    let (st, action) = step(st, Event::DescriptionSet);
    assert_eq!(action, Action::StartTarget);
    let (st, action) = step(st, Event::Started);
    assert_await_tick(&action);
    (st, plan)
}

#[test]
fn builder_patches_scenario_b_command() {
    let cfg = unpatched_config("C:\\svc.exe --foo");
    let plan = build_patched_config(cfg.clone()).expect("command should patch");
    assert_eq!(plan.name, target_service_name());
    assert_eq!(plan.display_name, patch_marker());
    assert_eq!(plan.executable_path, "C:\\svc.exe");
    assert_eq!(plan.launch_arguments, vec!["--exec-opt", "isolation=process", "--foo"]);
    assert_eq!(plan.service_type, cfg.service_type);
    assert_eq!(plan.start_type, cfg.start_type);
    assert_eq!(plan.error_control, cfg.error_control);
    assert_eq!(plan.dependencies, cfg.dependencies);
    assert_eq!(plan.account_name, None);
    assert_eq!(plan.account_password, None);
}

#[test]
fn builder_handles_quoted_executable() {
    let cfg = unpatched_config("\"C:\\Program Files\\Docker\\dockerd.exe\" --run-service");
    let plan = build_patched_config(cfg).expect("command should patch");
    assert_eq!(plan.executable_path, "C:\\Program Files\\Docker\\dockerd.exe");
    assert_eq!(plan.launch_arguments, vec!["--exec-opt", "isolation=process", "--run-service"]);
}

#[test]
fn builder_rejects_unbalanced_quote() {
    let cfg = unpatched_config("\"C:\\Program Files\\dockerd.exe --foo");
    assert_eq!(build_patched_config(cfg), Err(CmdError::UnbalancedQuote));
}

#[test]
fn builder_rejects_empty_command() {
    assert_eq!(build_patched_config(unpatched_config("")), Err(CmdError::EmptyCommand));
    assert_eq!(build_patched_config(unpatched_config("   ")), Err(CmdError::EmptyCommand));
}

#[test]
fn scenario_a_absent_service_means_no_action() {
    let mut st = LoopState::initial();
    for _ in 0..5 {
        let (next, action) = step(st, Event::Tick(TickSignal::Elapsed));
        assert_eq!(action, Action::OpenTarget);
        let (next, action) = step(next, Event::Open(OpenOutcome::NotFound));
        assert_await_tick(&action);
        assert!(!next.modified_by_us);
        st = next;
    }
}

#[test]
fn scenario_b_running_unpatched_service_is_patched() {
    let (st, plan) = drive_patch(LoopState::initial(), unpatched_config("C:\\svc.exe --foo"));
    assert!(st.modified_by_us);
    assert_eq!(plan.executable_path, "C:\\svc.exe");
    assert_eq!(plan.launch_arguments, vec!["--exec-opt", "isolation=process", "--foo"]);
    assert_eq!(plan.display_name, patch_marker());
}

#[test]
fn scenario_c_marked_service_is_only_recorded() {
    let mut cfg = unpatched_config("C:\\svc.exe --exec-opt isolation=process --foo");
    cfg.display_name = patch_marker().to_string();
    let st = LoopState::initial();
    let (st, _) = step(st, Event::Tick(TickSignal::Elapsed));
    let (st, _) = step(st, Event::Open(OpenOutcome::Opened));
    let (st, _) = step(st, Event::Status(ServiceState::Running));
    let (st, action) = step(st, Event::Status(ServiceState::Running));
    assert_eq!(action, Action::QueryConfig);
    let (st, action) = step(st, Event::Config(cfg));
    assert_await_tick(&action);
    assert!(st.modified_by_us);
}

#[test]
fn scenario_d_external_stop_resets_and_repatches() {
    let (st, _) = drive_patch(LoopState::initial(), unpatched_config("C:\\svc.exe --foo"));
    assert!(st.modified_by_us);
    // The installer stops the patched service out from under the watcher.
    let (st, action) = step(st, Event::Tick(TickSignal::Elapsed));
    assert_eq!(action, Action::OpenTarget);
    let (st, action) = step(st, Event::Open(OpenOutcome::Opened));
    assert_eq!(action, Action::QueryStatus);
    let (st, action) = step(st, Event::Status(ServiceState::Stopped));
    assert_await_tick(&action);
    assert!(!st.modified_by_us);
    // It comes back Running with the marker gone: patched again.
    let (st, plan) = drive_patch(st, unpatched_config("C:\\svc.exe --foo"));
    assert!(st.modified_by_us);
    assert_eq!(plan.display_name, patch_marker());
}

#[test]
fn patched_service_still_running_is_left_alone() {
    let (st, _) = drive_patch(LoopState::initial(), unpatched_config("C:\\svc.exe --foo"));
    let (st, _) = step(st, Event::Tick(TickSignal::Elapsed));
    let (st, _) = step(st, Event::Open(OpenOutcome::Opened));
    let (st, action) = step(st, Event::Status(ServiceState::Running));
    assert_await_tick(&action);
    assert!(st.modified_by_us);
}

#[test]
fn cancellation_exits_within_one_tick() {
    let (st, action) = step(LoopState::initial(), Event::Tick(TickSignal::Cancelled));
    assert_eq!(action, Action::ExitLoop);
    assert!(!st.modified_by_us);
    // Also after a patch, and on a severed channel.
    let (st, _) = drive_patch(LoopState::initial(), unpatched_config("C:\\svc.exe --foo"));
    let (_, action) = step(st, Event::Tick(TickSignal::Disconnected));
    assert_eq!(action, Action::ExitLoop);
}

#[test]
fn debounce_abandons_service_that_stops_in_window() {
    let st = LoopState::initial();
    let (st, _) = step(st, Event::Tick(TickSignal::Elapsed));
    let (st, _) = step(st, Event::Open(OpenOutcome::Opened));
    let (st, action) = step(st, Event::Status(ServiceState::Running));
    assert_eq!(action, Action::DebounceThenQueryStatus);
    let (st, action) = step(st, Event::Status(ServiceState::StopPending));
    assert_await_tick(&action);
    assert!(!st.modified_by_us);
}

#[test]
fn non_running_candidate_is_not_touched() {
    for observed in [
        ServiceState::Stopped,
        ServiceState::StartPending,
        ServiceState::StopPending,
        ServiceState::Paused,
    ] {
        let st = LoopState::initial();
        let (st, _) = step(st, Event::Tick(TickSignal::Elapsed));
        let (st, _) = step(st, Event::Open(OpenOutcome::Opened));
        let (st, action) = step(st, Event::Status(observed));
        assert_await_tick(&action);
        assert!(!st.modified_by_us);
    }
}

#[test]
fn directory_failures_are_fatal() {
    let st = LoopState::initial();
    let (st, _) = step(st, Event::Tick(TickSignal::Elapsed));
    let (_, action) = step(st, Event::Open(OpenOutcome::Failed));
    assert_eq!(action, Action::Fail(FatalError::Directory));

    let st = LoopState::initial();
    let (st, _) = step(st, Event::Tick(TickSignal::Elapsed));
    let (st, _) = step(st, Event::Open(OpenOutcome::Opened));
    let (_, action) = step(st, Event::StatusFailed);
    assert_eq!(action, Action::Fail(FatalError::Directory));

    let st = LoopState::initial();
    let (st, _) = step(st, Event::Tick(TickSignal::Elapsed));
    let (st, _) = step(st, Event::Open(OpenOutcome::Opened));
    let (st, _) = step(st, Event::Status(ServiceState::Running));
    let (st, _) = step(st, Event::Status(ServiceState::Running));
    let (_, action) = step(st, Event::ConfigFailed);
    assert_eq!(action, Action::Fail(FatalError::Directory));
}

#[test]
fn malformed_command_is_fatal() {
    let st = LoopState::initial();
    let (st, _) = step(st, Event::Tick(TickSignal::Elapsed));
    let (st, _) = step(st, Event::Open(OpenOutcome::Opened));
    let (st, _) = step(st, Event::Status(ServiceState::Running));
    let (st, _) = step(st, Event::Status(ServiceState::Running));
    let (_, action) = step(st, Event::Config(unpatched_config("\"C:\\svc.exe --foo")));
    assert_eq!(action, Action::Fail(FatalError::MalformedCommand(CmdError::UnbalancedQuote)));
}

#[test]
fn unexpected_event_is_fatal() {
    let (_, action) = step(LoopState::initial(), Event::Started);
    assert_eq!(action, Action::Fail(FatalError::UnexpectedEvent));
}
