use eb_rs::lifecycle::{
    daemon_executable, flag_is_set, launch_mode, LaunchMode, LifecycleAction, LifecycleEvent,
    LifecycleState,
};
use eb_rs::process::{is_instance_running, termination_targets};
use eb_rs::status::ExitStatus;

#[test]
fn instance_running_needs_another_process() {
    assert!(is_instance_running(&vec![40, 41], 40));
    assert!(is_instance_running(&vec![7, 40, 41], 41));
    assert!(!is_instance_running(&vec![40], 40));
    assert!(!is_instance_running(&vec![], 40));
}

#[test]
fn termination_targets_spare_or_include_the_caller() {
    assert_eq!(termination_targets(&vec![3, 40, 9], 40, false), vec![3, 9]);
    assert_eq!(termination_targets(&vec![3, 40, 9], 40, true), vec![3, 9, 40]);
    assert_eq!(termination_targets(&vec![40], 40, false), Vec::<u32>::new());
    assert_eq!(termination_targets(&vec![40], 40, true), vec![40]);
}

#[test]
fn survivors_after_termination() {
    let all = vec![3u32, 40, 9, 12];
    let killed = termination_targets(&all, 40, false);
    let left: Vec<u32> = all.iter().copied().filter(|p| !killed.contains(p)).collect();
    assert_eq!(left, vec![40]);
    let killed = termination_targets(&all, 40, true);
    assert!(all.iter().all(|p| killed.contains(p)));
}

#[test]
fn daemon_flag_wins_over_relaunch_flag() {
    assert_eq!(launch_mode(true, true), LaunchMode::Daemon);
    assert_eq!(launch_mode(false, true), LaunchMode::Relaunch);
    assert_eq!(launch_mode(false, false), LaunchMode::Foreground);
}

#[test]
fn flags_must_read_true() {
    assert!(flag_is_set(&Some("TRUE".to_string())));
    assert!(!flag_is_set(&Some("true".to_string())));
    assert!(!flag_is_set(&Some(String::new())));
    assert!(!flag_is_set(&None));
}

#[test]
fn executable_falls_back_to_installed_path() {
    let home = "/Users/me".to_string();
    assert_eq!(daemon_executable(Some("/tmp/eb-rs".to_string()), &home), "/tmp/eb-rs");
    assert_eq!(
        daemon_executable(None, &home),
        "/Users/me/Applications/eb-rs.app/Contents/MacOS/eb-rs"
    );
}

fn launched(daemon: bool, relaunch: bool, running: bool, valid: bool) -> LifecycleEvent {
    LifecycleEvent::Launched {
        daemon_flag: daemon,
        relaunch_flag: relaunch,
        instance_running: running,
        config_valid: valid,
    }
}

#[test]
fn startup_policy() {
    let idle = LifecycleState::Idle;
    assert_eq!(
        idle.next(launched(true, true, true, false)),
        (LifecycleState::DaemonWatching, LifecycleAction::WatchGesture)
    );
    assert_eq!(
        idle.next(launched(false, true, false, true)),
        (LifecycleState::DaemonReplacing, LifecycleAction::ReplaceDaemon)
    );
    assert_eq!(
        idle.next(launched(false, false, true, true)),
        (
            LifecycleState::Configuring,
            LifecycleAction::PresentConfiguration { terminate_competitor: true }
        )
    );
    assert_eq!(
        idle.next(launched(false, false, false, false)),
        (
            LifecycleState::Configuring,
            LifecycleAction::PresentConfiguration { terminate_competitor: false }
        )
    );
    assert_eq!(
        idle.next(launched(false, false, false, true)),
        (LifecycleState::DaemonReplacing, LifecycleAction::ReplaceDaemon)
    );
}

#[test]
fn configuration_then_arming() {
    let (s, a) = LifecycleState::Configuring
        .next(LifecycleEvent::ConfigurationClosed(ExitStatus::COMPLETED));
    assert_eq!((s, a), (LifecycleState::Arming, LifecycleAction::ArmDaemon));
    assert_eq!(
        s.next(LifecycleEvent::ProcessesHandled),
        (LifecycleState::Exited { success: true }, LifecycleAction::Exit { success: true })
    );
    assert_eq!(
        s.next(LifecycleEvent::ProcessFailure),
        (LifecycleState::Exited { success: false }, LifecycleAction::Exit { success: false })
    );
    assert_eq!(
        LifecycleState::Configuring.next(LifecycleEvent::ConfigurationClosed(ExitStatus::UNCOMPLETED)),
        (LifecycleState::Exited { success: true }, LifecycleAction::Exit { success: true })
    );
}

#[test]
fn daemon_cycle() {
    let w = LifecycleState::DaemonWatching;
    assert_eq!(
        w.next(LifecycleEvent::SamplingEnded { matched: false }),
        (LifecycleState::DaemonWatching, LifecycleAction::WatchGesture)
    );
    let (c, a) = w.next(LifecycleEvent::SamplingEnded { matched: true });
    assert_eq!((c, a), (LifecycleState::DaemonConfirming, LifecycleAction::PresentCountdown));
    assert_eq!(
        c.next(LifecycleEvent::CountdownClosed(ExitStatus::UNCOMPLETED)),
        (LifecycleState::DaemonWatching, LifecycleAction::WatchGesture)
    );
    let (b, a) = c.next(LifecycleEvent::CountdownClosed(ExitStatus::COMPLETED));
    assert_eq!((b, a), (LifecycleState::BackingUp, LifecycleAction::RunBackup));
    let (r, a) = b.next(LifecycleEvent::BackupFinished);
    assert_eq!((r, a), (LifecycleState::DaemonReplacing, LifecycleAction::Respawn));
    assert_eq!(
        r.next(LifecycleEvent::ProcessFailure),
        (LifecycleState::Exited { success: false }, LifecycleAction::Exit { success: false })
    );
}

#[test]
fn unexpected_events_are_ignored() {
    assert_eq!(
        LifecycleState::DaemonWatching.next(LifecycleEvent::BackupFinished),
        (LifecycleState::DaemonWatching, LifecycleAction::Ignore)
    );
    assert_eq!(
        LifecycleState::Idle.next(LifecycleEvent::ProcessesHandled),
        (LifecycleState::Idle, LifecycleAction::Ignore)
    );
}

#[test]
fn exit_status_defaults_to_uncompleted() {
    assert_eq!(ExitStatus::default(), ExitStatus::UNCOMPLETED);
}
