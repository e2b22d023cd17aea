//! The agent's lifecycle: from how a process was launched and what it learns
//! along the way, what it must do next.

use crate::status::ExitStatus;
use vstd::prelude::*;
use vstd::string::StringExecFns;

verus! {

/// How a process was launched, from the two flags in its environment.
#[derive(Clone, Copy, Debug, PartialEq, Eq, Structural)]
pub enum LaunchMode {
    /// Launched as the standing daemon.
    Daemon,
    /// Launched to replace the daemon.
    Relaunch,
    /// An ordinary launch, by the user.
    Foreground,
}

/// The daemon flag is read before the relaunch flag, so that a daemon never
/// replaces itself.
pub open spec fn launch_mode_spec(daemon_flag: bool, relaunch_flag: bool) -> LaunchMode {
    if daemon_flag {
        LaunchMode::Daemon
    } else if relaunch_flag {
        LaunchMode::Relaunch
    } else {
        LaunchMode::Foreground
    }
}

pub fn launch_mode(daemon_flag: bool, relaunch_flag: bool) -> (r: LaunchMode)
    ensures
        r == launch_mode_spec(daemon_flag, relaunch_flag),
{
    if daemon_flag {
        LaunchMode::Daemon
    } else if relaunch_flag {
        LaunchMode::Relaunch
    } else {
        LaunchMode::Foreground
    }
}

/// A flag is set where its variable holds exactly `TRUE`.
pub fn flag_is_set(value: &Option<String>) -> (r: bool)
    ensures
        r == (value.is_some() && value->0@ == "TRUE"@),
{
    match value {
        Some(v) => {
            let expected = String::from_str("TRUE");
            v.eq(&expected)
        },
        None => false,
    }
}

/// Where the agent is installed, under the user's home directory.
pub open spec fn installed_executable(home: Seq<char>) -> Seq<char> {
    home + "/Applications/eb-rs.app/Contents/MacOS/eb-rs"@
}

/// The program to launch a daemon from: the running executable where the
/// platform could tell its path, else the installed one.
pub fn daemon_executable(current: Option<String>, home: &String) -> (r: String)
    ensures
        r@ == match current {
            Some(path) => path@,
            None => installed_executable(home@),
        },
{
    match current {
        Some(path) => path,
        None => {
            let mut path = home.clone();
            path.append("/Applications/eb-rs.app/Contents/MacOS/eb-rs");
            path
        },
    }
}

/// Where the agent stands.
#[derive(Clone, Copy, Debug, PartialEq, Eq, Structural)]
pub enum LifecycleState {
    /// Just launched.
    Idle,
    /// The configuration window is open.
    Configuring,
    /// A configuration was saved; a daemon is being put in place.
    Arming,
    /// The daemon watches the pointer for the gesture.
    DaemonWatching,
    /// The gesture was traced; the countdown window is open.
    DaemonConfirming,
    /// The countdown ran out; the backup runs.
    BackingUp,
    /// A daemon is being spawned to take over.
    DaemonReplacing,
    /// Done; the process ends.
    Exited { success: bool },
}

/// What the agent learns from the platform and the user.
#[derive(Clone, Copy, Debug, PartialEq, Eq, Structural)]
pub enum LifecycleEvent {
    /// The process started: its two flags, whether another instance runs, and
    /// whether a configuration was read and is whole.
    Launched { daemon_flag: bool, relaunch_flag: bool, instance_running: bool, config_valid: bool },
    /// The configuration window was closed; `COMPLETED` where a configuration
    /// was saved.
    ConfigurationClosed(ExitStatus),
    /// An attempt at the gesture ended.
    SamplingEnded { matched: bool },
    /// The countdown window was closed; `COMPLETED` where it ran out without
    /// being cancelled.
    CountdownClosed(ExitStatus),
    /// The backup ran (its own failures are its own to report).
    BackupFinished,
    /// The processes were terminated or spawned as asked.
    ProcessesHandled,
    /// Listing, terminating or spawning processes failed.
    ProcessFailure,
}

/// What the agent must do next.
#[derive(Clone, Copy, Debug, PartialEq, Eq, Structural)]
pub enum LifecycleAction {
    /// Terminate the other instance first where `terminate_competitor` is set,
    /// then open the configuration window.
    PresentConfiguration { terminate_competitor: bool },
    /// Register for autostart, terminate the other instances and spawn a
    /// daemon.
    ArmDaemon,
    /// Terminate the other instances and spawn a daemon.
    ReplaceDaemon,
    /// Run one attempt of the sampling loop.
    WatchGesture,
    /// Open the countdown window.
    PresentCountdown,
    /// Copy the configured folders to the configured device.
    RunBackup,
    /// Spawn a fresh daemon; this one then ends.
    Respawn,
    /// End the process.
    Exit { success: bool },
    /// The event does not belong to this state: nothing to do.
    Ignore,
}

/// The agent's transitions. A failure to handle processes ends the process as
/// a failure rather than leave two daemons or none. A cancelled countdown goes
/// back to watching; only one that ran out leads to the backup, after which a
/// fresh daemon takes over.
pub open spec fn transition(state: LifecycleState, event: LifecycleEvent) -> (
    LifecycleState,
    LifecycleAction,
) {
    match (state, event) {
        (
            LifecycleState::Idle,
            LifecycleEvent::Launched { daemon_flag, relaunch_flag, instance_running, config_valid },
        ) => match launch_mode_spec(daemon_flag, relaunch_flag) {
            LaunchMode::Daemon => (LifecycleState::DaemonWatching, LifecycleAction::WatchGesture),
            LaunchMode::Relaunch => (
                LifecycleState::DaemonReplacing,
                LifecycleAction::ReplaceDaemon,
            ),
            LaunchMode::Foreground => if instance_running || !config_valid {
                (
                    LifecycleState::Configuring,
                    LifecycleAction::PresentConfiguration { terminate_competitor: instance_running },
                )
            } else {
                (LifecycleState::DaemonReplacing, LifecycleAction::ReplaceDaemon)
            },
        },
        (LifecycleState::Configuring, LifecycleEvent::ConfigurationClosed(status)) => match status {
            ExitStatus::COMPLETED => (LifecycleState::Arming, LifecycleAction::ArmDaemon),
            ExitStatus::UNCOMPLETED => (
                LifecycleState::Exited { success: true },
                LifecycleAction::Exit { success: true },
            ),
        },
        (LifecycleState::DaemonWatching, LifecycleEvent::SamplingEnded { matched }) => if matched {
            (LifecycleState::DaemonConfirming, LifecycleAction::PresentCountdown)
        } else {
            (LifecycleState::DaemonWatching, LifecycleAction::WatchGesture)
        },
        (LifecycleState::DaemonConfirming, LifecycleEvent::CountdownClosed(status)) => match status {
            ExitStatus::COMPLETED => (LifecycleState::BackingUp, LifecycleAction::RunBackup),
            ExitStatus::UNCOMPLETED => (
                LifecycleState::DaemonWatching,
                LifecycleAction::WatchGesture,
            ),
        },
        (LifecycleState::BackingUp, LifecycleEvent::BackupFinished) => (
            LifecycleState::DaemonReplacing,
            LifecycleAction::Respawn,
        ),
        (LifecycleState::Configuring, LifecycleEvent::ProcessFailure)
        | (LifecycleState::Arming, LifecycleEvent::ProcessFailure)
        | (LifecycleState::DaemonReplacing, LifecycleEvent::ProcessFailure) => (
            LifecycleState::Exited { success: false },
            LifecycleAction::Exit { success: false },
        ),
        (LifecycleState::Arming, LifecycleEvent::ProcessesHandled)
        | (LifecycleState::DaemonReplacing, LifecycleEvent::ProcessesHandled) => (
            LifecycleState::Exited { success: true },
            LifecycleAction::Exit { success: true },
        ),
        _ => (state, LifecycleAction::Ignore),
    }
}

impl LifecycleState {
    /// The state the agent moves to on `event`, and what it must do there.
    pub fn next(self, event: LifecycleEvent) -> (r: (LifecycleState, LifecycleAction))
        ensures
            r == transition(self, event),
    {
        match (self, event) {
            (
                LifecycleState::Idle,
                LifecycleEvent::Launched {
                    daemon_flag,
                    relaunch_flag,
                    instance_running,
                    config_valid,
                },
            ) => match launch_mode(daemon_flag, relaunch_flag) {
                LaunchMode::Daemon => (
                    LifecycleState::DaemonWatching,
                    LifecycleAction::WatchGesture,
                ),
                LaunchMode::Relaunch => (
                    LifecycleState::DaemonReplacing,
                    LifecycleAction::ReplaceDaemon,
                ),
                LaunchMode::Foreground => if instance_running || !config_valid {
                    (
                        LifecycleState::Configuring,
                        LifecycleAction::PresentConfiguration {
                            terminate_competitor: instance_running,
                        },
                    )
                } else {
                    (LifecycleState::DaemonReplacing, LifecycleAction::ReplaceDaemon)
                },
            },
            (LifecycleState::Configuring, LifecycleEvent::ConfigurationClosed(status)) => match status {
                ExitStatus::COMPLETED => (LifecycleState::Arming, LifecycleAction::ArmDaemon),
                ExitStatus::UNCOMPLETED => (
                    LifecycleState::Exited { success: true },
                    LifecycleAction::Exit { success: true },
                ),
            },
            (LifecycleState::DaemonWatching, LifecycleEvent::SamplingEnded { matched }) => if matched {
                (LifecycleState::DaemonConfirming, LifecycleAction::PresentCountdown)
            } else {
                (LifecycleState::DaemonWatching, LifecycleAction::WatchGesture)
            },
            (LifecycleState::DaemonConfirming, LifecycleEvent::CountdownClosed(status)) => match status {
                ExitStatus::COMPLETED => (LifecycleState::BackingUp, LifecycleAction::RunBackup),
                ExitStatus::UNCOMPLETED => (
                    LifecycleState::DaemonWatching,
                    LifecycleAction::WatchGesture,
                ),
            },
            (LifecycleState::BackingUp, LifecycleEvent::BackupFinished) => (
                LifecycleState::DaemonReplacing,
                LifecycleAction::Respawn,
            ),
            (LifecycleState::Configuring, LifecycleEvent::ProcessFailure)
            | (LifecycleState::Arming, LifecycleEvent::ProcessFailure)
            | (LifecycleState::DaemonReplacing, LifecycleEvent::ProcessFailure) => (
                LifecycleState::Exited { success: false },
                LifecycleAction::Exit { success: false },
            ),
            (LifecycleState::Arming, LifecycleEvent::ProcessesHandled)
            | (LifecycleState::DaemonReplacing, LifecycleEvent::ProcessesHandled) => (
                LifecycleState::Exited { success: true },
                LifecycleAction::Exit { success: true },
            ),
            _ => (self, LifecycleAction::Ignore),
        }
    }
}

/// The backup runs only when a countdown ran out: a cancelled countdown goes
/// back to watching, in every case.
pub proof fn lemma_backup_needs_completed_countdown(state: LifecycleState, event: LifecycleEvent)
    ensures
        transition(state, event).1 == LifecycleAction::RunBackup <==> (state
            == LifecycleState::DaemonConfirming && event == LifecycleEvent::CountdownClosed(
            ExitStatus::COMPLETED,
        )),
        state == LifecycleState::DaemonConfirming && event == LifecycleEvent::CountdownClosed(
            ExitStatus::UNCOMPLETED,
        ) ==> transition(state, event) == (
            LifecycleState::DaemonWatching,
            LifecycleAction::WatchGesture,
        ),
{
}

/// A failure to list, terminate or spawn processes never passes for success:
/// wherever it is awaited, it ends the process as a failure.
pub proof fn lemma_process_failure_surfaces(state: LifecycleState)
    requires
        state == LifecycleState::Configuring || state == LifecycleState::Arming || state
            == LifecycleState::DaemonReplacing,
    ensures
        transition(state, LifecycleEvent::ProcessFailure) == (
            LifecycleState::Exited { success: false },
            LifecycleAction::Exit { success: false },
        ),
{
}

} // verus!
