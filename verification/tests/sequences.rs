//! Scenario tests: drive the decision functions against small simulated
//! substrates and check the exact step sequences and end states.

use service_installer::action::{Action, MacSetupStep, OpenOutcome, Platform, StatusProbe, SvcError, WinState};
use service_installer::{install, linux, macos, uninstall, windows};

// ---------------------------------------------------------------------------
// Linux
// ---------------------------------------------------------------------------

#[derive(Clone, Copy, PartialEq, Eq, Debug)]
struct LinuxSim {
    binary: bool,
    unit: bool,
    running: bool,
}

fn linux_install_drive(sim: &mut LinuxSim) -> (Result<(), SvcError>, Vec<Action>) {
    let mut trace = Vec::new();
    let mut a = install(Platform::Linux);
    loop {
        trace.push(a);
        a = match a {
            Action::Finish(r) => return (r, trace),
            Action::CheckBinary => linux::on_binary_checked(sim.binary),
            Action::QueryUnitStatus => {
                let code = if sim.running {
                    0
                } else if sim.unit {
                    3
                } else {
                    4
                };
                linux::on_status_probed(StatusProbe::Exited(Some(code)))
            }
            Action::StartUnit => {
                sim.running = true;
                linux::on_start_finished(true)
            }
            Action::WriteUnitFile => {
                sim.unit = true;
                linux::on_unit_written(true)
            }
            Action::DaemonReload => linux::on_reloaded(true),
            Action::EnableUnitNow => {
                sim.running = true;
                linux::on_enabled(true)
            }
            other => panic!("unexpected install action: {:?}", other),
        };
    }
}

fn linux_uninstall_drive(sim: &mut LinuxSim) -> (Result<(), SvcError>, Vec<Action>) {
    let mut trace = Vec::new();
    let mut a = uninstall(Platform::Linux);
    loop {
        trace.push(a);
        a = match a {
            Action::Finish(r) => return (r, trace),
            Action::StopUnit => {
                sim.running = false;
                linux::on_stop_finished(true)
            }
            Action::DisableUnit => linux::on_disable_finished(true),
            Action::RemoveUnitFile => {
                sim.unit = false;
                linux::on_unit_removed(true)
            }
            Action::DaemonReload => linux::on_removal_reloaded(true),
            other => panic!("unexpected uninstall action: {:?}", other),
        };
    }
}

#[test]
fn linux_install_from_clean_state() {
    let mut sim = LinuxSim { binary: true, unit: false, running: false };
    let (r, trace) = linux_install_drive(&mut sim);
    assert_eq!(r, Ok(()));
    assert_eq!(
        trace,
        vec![
            Action::CheckBinary,
            Action::QueryUnitStatus,
            Action::WriteUnitFile,
            Action::DaemonReload,
            Action::EnableUnitNow,
            Action::Finish(Ok(())),
        ]
    );
    assert!(sim.unit && sim.running);
}

#[test]
fn linux_install_twice_succeeds_and_stays_running() {
    let mut sim = LinuxSim { binary: true, unit: false, running: false };
    let (r1, _) = linux_install_drive(&mut sim);
    assert_eq!(r1, Ok(()));
    let before = sim;
    let (r2, trace2) = linux_install_drive(&mut sim);
    assert_eq!(r2, Ok(()));
    assert_eq!(sim, before);
    assert!(sim.running);
    // The second run short-circuits on status code 0 and writes nothing.
    assert_eq!(
        trace2,
        vec![Action::CheckBinary, Action::QueryUnitStatus, Action::Finish(Ok(()))]
    );
}

#[test]
fn linux_uninstall_when_never_installed_succeeds() {
    let mut sim = LinuxSim { binary: true, unit: false, running: false };
    let (r, _) = linux_uninstall_drive(&mut sim);
    assert_eq!(r, Ok(()));
    assert!(!sim.unit && !sim.running);
}

#[test]
fn linux_missing_binary_fails_without_mutation() {
    let mut sim = LinuxSim { binary: false, unit: false, running: false };
    let before = sim;
    let (r, trace) = linux_install_drive(&mut sim);
    assert_eq!(r, Err(SvcError::BinaryNotFound));
    assert_eq!(sim, before);
    assert_eq!(
        trace,
        vec![Action::CheckBinary, Action::Finish(Err(SvcError::BinaryNotFound))]
    );
}

#[test]
fn linux_status_code_mapping() {
    // 0: already running, succeed at once.
    assert_eq!(
        linux::on_status_probed(StatusProbe::Exited(Some(0))),
        Action::Finish(Ok(()))
    );
    // 1, 2, 3: known "not running" variants, start the unit.
    for c in 1..=3 {
        assert_eq!(
            linux::on_status_probed(StatusProbe::Exited(Some(c))),
            Action::StartUnit
        );
    }
    // 4: unit not found, proceed with the full installation.
    assert_eq!(
        linux::on_status_probed(StatusProbe::Exited(Some(4))),
        Action::WriteUnitFile
    );
    // Anything else is a hard failure, never treated as absent or running.
    assert_eq!(
        linux::on_status_probed(StatusProbe::Exited(Some(5))),
        Action::Finish(Err(SvcError::UnexpectedStatusCode))
    );
    assert_eq!(
        linux::on_status_probed(StatusProbe::Exited(Some(-1))),
        Action::Finish(Err(SvcError::UnexpectedStatusCode))
    );
    assert_eq!(
        linux::on_status_probed(StatusProbe::Exited(None)),
        Action::Finish(Err(SvcError::UnexpectedStatusCode))
    );
    assert_eq!(
        linux::on_status_probed(StatusProbe::SpawnFailed),
        Action::Finish(Err(SvcError::StatusQueryFailed))
    );
}

#[test]
fn linux_known_unit_is_started_without_rewrite() {
    let mut sim = LinuxSim { binary: true, unit: true, running: false };
    let (r, trace) = linux_install_drive(&mut sim);
    assert_eq!(r, Ok(()));
    assert!(sim.running);
    assert_eq!(
        trace,
        vec![
            Action::CheckBinary,
            Action::QueryUnitStatus,
            Action::StartUnit,
            Action::Finish(Ok(())),
        ]
    );
}

#[test]
fn linux_round_trip_matches_single_install() {
    let mut round = LinuxSim { binary: true, unit: true, running: true };
    let (r1, _) = linux_install_drive(&mut round);
    assert_eq!(r1, Ok(()));
    let (r2, _) = linux_uninstall_drive(&mut round);
    assert_eq!(r2, Ok(()));
    let (r3, _) = linux_install_drive(&mut round);
    assert_eq!(r3, Ok(()));

    let mut single = LinuxSim { binary: true, unit: false, running: false };
    let (r, _) = linux_install_drive(&mut single);
    assert_eq!(r, Ok(()));
    assert_eq!(round, single);
    assert!(round.running);
}

#[test]
fn linux_failed_start_is_propagated() {
    assert_eq!(
        linux::on_start_finished(false),
        Action::Finish(Err(SvcError::StartFailed))
    );
}

#[test]
fn linux_failed_unit_write_is_propagated() {
    assert_eq!(
        linux::on_unit_written(false),
        Action::Finish(Err(SvcError::WriteFileFailed))
    );
}

#[test]
fn linux_uninstall_swallows_stop_and_disable_failures() {
    assert_eq!(linux::on_stop_finished(false), Action::DisableUnit);
    assert_eq!(linux::on_disable_finished(false), Action::RemoveUnitFile);
    assert_eq!(
        linux::on_unit_removed(false),
        Action::Finish(Err(SvcError::RemoveFileFailed))
    );
    assert_eq!(linux::on_removal_reloaded(false), Action::Finish(Ok(())));
}

// ---------------------------------------------------------------------------
// macOS
// ---------------------------------------------------------------------------

#[derive(Clone, Copy, PartialEq, Eq, Debug)]
struct MacSim {
    binary: bool,
    helper_dir: bool,
    helper: bool,
    daemon_dir: bool,
    plist: bool,
    running: bool,
}

fn mac_install_drive(sim: &mut MacSim) -> (Result<(), SvcError>, Vec<Action>) {
    let mut trace = Vec::new();
    let mut a = install(Platform::MacOs);
    loop {
        trace.push(a);
        a = match a {
            Action::Finish(r) => return (r, trace),
            Action::CheckBinary => macos::on_binary_checked(sim.binary),
            Action::EnsureHelperDir => {
                sim.helper_dir = true;
                macos::on_helper_dir_ensured(true)
            }
            Action::CopyHelperBinary => {
                sim.helper = true;
                macos::on_binary_copied(true)
            }
            Action::EnsureDaemonDir => {
                sim.daemon_dir = true;
                macos::on_daemon_dir_ensured(true)
            }
            Action::WritePlistFile => {
                sim.plist = true;
                macos::on_plist_written(true)
            }
            Action::MacSetup(step) => {
                match step {
                    MacSetupStep::LaunchBootout => sim.running = false,
                    MacSetupStep::LaunchBootstrap => sim.running = true,
                    MacSetupStep::LaunchStart => sim.running = true,
                    _ => {}
                }
                macos::on_setup_step_finished(step, true)
            }
            other => panic!("unexpected install action: {:?}", other),
        };
    }
}

fn mac_uninstall_drive(
    sim: &mut MacSim,
    stop_ok: bool,
    bootout_ok: bool,
    disable_ok: bool,
) -> (Result<(), SvcError>, Vec<Action>) {
    let mut trace = Vec::new();
    let mut a = uninstall(Platform::MacOs);
    loop {
        trace.push(a);
        a = match a {
            Action::Finish(r) => return (r, trace),
            Action::LaunchStop => {
                if stop_ok {
                    sim.running = false;
                }
                macos::on_stop_finished(stop_ok)
            }
            Action::LaunchBootout => {
                if bootout_ok {
                    sim.running = false;
                }
                macos::on_bootout_finished(bootout_ok)
            }
            Action::LaunchDisable => macos::on_disable_finished(disable_ok),
            Action::RemovePlistFile => {
                sim.plist = false;
                macos::on_plist_removed(true)
            }
            Action::RemoveHelperBinary => {
                sim.helper = false;
                macos::on_helper_removed(true)
            }
            other => panic!("unexpected uninstall action: {:?}", other),
        };
    }
}

#[test]
fn mac_install_from_clean_state() {
    let mut sim = MacSim {
        binary: true,
        helper_dir: false,
        helper: false,
        daemon_dir: false,
        plist: false,
        running: false,
    };
    let (r, trace) = mac_install_drive(&mut sim);
    assert_eq!(r, Ok(()));
    assert!(sim.helper_dir && sim.helper && sim.daemon_dir && sim.plist && sim.running);
    assert_eq!(
        trace,
        vec![
            Action::CheckBinary,
            Action::EnsureHelperDir,
            Action::CopyHelperBinary,
            Action::EnsureDaemonDir,
            Action::WritePlistFile,
            Action::MacSetup(MacSetupStep::ChmodPlist),
            Action::MacSetup(MacSetupStep::ChownPlist),
            Action::MacSetup(MacSetupStep::ChmodBinary),
            Action::MacSetup(MacSetupStep::ChownBinary),
            Action::MacSetup(MacSetupStep::LaunchEnable),
            Action::MacSetup(MacSetupStep::LaunchBootout),
            Action::MacSetup(MacSetupStep::LaunchBootstrap),
            Action::MacSetup(MacSetupStep::LaunchStart),
            Action::Finish(Ok(())),
        ]
    );
}

#[test]
fn mac_install_twice_succeeds_and_stays_running() {
    let mut sim = MacSim {
        binary: true,
        helper_dir: false,
        helper: false,
        daemon_dir: false,
        plist: false,
        running: false,
    };
    let (r1, _) = mac_install_drive(&mut sim);
    assert_eq!(r1, Ok(()));
    let before = sim;
    let (r2, _) = mac_install_drive(&mut sim);
    assert_eq!(r2, Ok(()));
    assert_eq!(sim, before);
    assert!(sim.running);
}

#[test]
fn mac_uninstall_when_never_installed_succeeds() {
    let mut sim = MacSim {
        binary: false,
        helper_dir: false,
        helper: false,
        daemon_dir: false,
        plist: false,
        running: false,
    };
    let (r, _) = mac_uninstall_drive(&mut sim, false, false, true);
    assert_eq!(r, Ok(()));
    assert!(!sim.helper && !sim.plist);
}

#[test]
fn mac_missing_binary_fails_without_mutation() {
    let mut sim = MacSim {
        binary: false,
        helper_dir: false,
        helper: false,
        daemon_dir: false,
        plist: false,
        running: false,
    };
    let before = sim;
    let (r, trace) = mac_install_drive(&mut sim);
    assert_eq!(r, Err(SvcError::BinaryNotFound));
    assert_eq!(sim, before);
    assert_eq!(
        trace,
        vec![Action::CheckBinary, Action::Finish(Err(SvcError::BinaryNotFound))]
    );
}

#[test]
fn mac_disable_failure_propagates_after_swallowed_failures() {
    let mut sim = MacSim {
        binary: true,
        helper_dir: true,
        helper: true,
        daemon_dir: true,
        plist: true,
        running: true,
    };
    // stop and bootout both fail silently; the disable failure is the one
    // that reaches the caller, before any file is removed.
    let (r, trace) = mac_uninstall_drive(&mut sim, false, false, false);
    assert_eq!(r, Err(SvcError::DisableFailed));
    assert!(sim.plist && sim.helper);
    assert_eq!(
        trace,
        vec![
            Action::LaunchStop,
            Action::LaunchBootout,
            Action::LaunchDisable,
            Action::Finish(Err(SvcError::DisableFailed)),
        ]
    );
}

#[test]
fn mac_round_trip_matches_single_install() {
    let mut round = MacSim {
        binary: true,
        helper_dir: false,
        helper: false,
        daemon_dir: false,
        plist: false,
        running: false,
    };
    let (r1, _) = mac_install_drive(&mut round);
    assert_eq!(r1, Ok(()));
    let (r2, _) = mac_uninstall_drive(&mut round, true, true, true);
    assert_eq!(r2, Ok(()));
    let (r3, _) = mac_install_drive(&mut round);
    assert_eq!(r3, Ok(()));

    let mut single = MacSim {
        binary: true,
        helper_dir: false,
        helper: false,
        daemon_dir: false,
        plist: false,
        running: false,
    };
    let (r, _) = mac_install_drive(&mut single);
    assert_eq!(r, Ok(()));
    assert_eq!(round, single);
    assert!(round.running);
}

// ---------------------------------------------------------------------------
// Windows
// ---------------------------------------------------------------------------

#[derive(Clone, Copy, PartialEq, Eq, Debug)]
struct WinSim {
    binary: bool,
    service: Option<WinState>,
}

fn win_install_drive(sim: &mut WinSim) -> (Result<(), SvcError>, Vec<Action>) {
    let mut trace = Vec::new();
    let mut a = install(Platform::Windows);
    loop {
        trace.push(a);
        a = match a {
            Action::Finish(r) => return (r, trace),
            Action::OpenManagerForCreate => windows::on_manager_opened(true),
            Action::OpenServiceForStart => windows::on_service_opened(if sim.service.is_some() {
                OpenOutcome::Opened
            } else {
                OpenOutcome::Missing
            }),
            Action::QueryServiceState => windows::on_state_queried(sim.service),
            Action::CheckBinary => windows::on_binary_checked(sim.binary),
            Action::CreateService => {
                sim.service = Some(WinState::Stopped);
                windows::on_service_created(true)
            }
            Action::SetServiceDescription => windows::on_description_set(true),
            Action::StartService => {
                sim.service = Some(WinState::Running);
                windows::on_start_finished(true)
            }
            other => panic!("unexpected install action: {:?}", other),
        };
    }
}

fn win_uninstall_drive(sim: &mut WinSim) -> (Result<(), SvcError>, Vec<Action>) {
    let mut trace = Vec::new();
    let mut a = uninstall(Platform::Windows);
    loop {
        trace.push(a);
        a = match a {
            Action::Finish(r) => return (r, trace),
            Action::OpenManagerForDelete => windows::on_delete_manager_opened(true),
            Action::OpenServiceForDelete => {
                windows::on_delete_service_opened(if sim.service.is_some() {
                    OpenOutcome::Opened
                } else {
                    OpenOutcome::Missing
                })
            }
            Action::QueryServiceState => windows::on_delete_state_queried(sim.service),
            Action::StopServiceAndWait => {
                sim.service = Some(WinState::Stopped);
                windows::on_stop_issued(true)
            }
            Action::DeleteService => {
                sim.service = None;
                windows::on_service_deleted(true)
            }
            other => panic!("unexpected uninstall action: {:?}", other),
        };
    }
}

#[test]
fn windows_install_from_clean_state() {
    let mut sim = WinSim { binary: true, service: None };
    let (r, trace) = win_install_drive(&mut sim);
    assert_eq!(r, Ok(()));
    assert_eq!(sim.service, Some(WinState::Running));
    assert_eq!(
        trace,
        vec![
            Action::OpenManagerForCreate,
            Action::OpenServiceForStart,
            Action::CheckBinary,
            Action::CreateService,
            Action::SetServiceDescription,
            Action::StartService,
            Action::Finish(Ok(())),
        ]
    );
}

#[test]
fn windows_stopped_service_is_only_started() {
    for st in [
        WinState::Stopped,
        WinState::StopPending,
        WinState::Paused,
        WinState::PausePending,
    ] {
        let mut sim = WinSim { binary: true, service: Some(st) };
        let (r, trace) = win_install_drive(&mut sim);
        assert_eq!(r, Ok(()));
        assert_eq!(sim.service, Some(WinState::Running));
        assert!(!trace.contains(&Action::CreateService));
        assert!(!trace.contains(&Action::CheckBinary));
        assert_eq!(
            trace,
            vec![
                Action::OpenManagerForCreate,
                Action::OpenServiceForStart,
                Action::QueryServiceState,
                Action::StartService,
                Action::Finish(Ok(())),
            ]
        );
    }
}

#[test]
fn windows_running_service_is_left_alone() {
    let mut sim = WinSim { binary: false, service: Some(WinState::Running) };
    let before = sim;
    let (r, trace) = win_install_drive(&mut sim);
    assert_eq!(r, Ok(()));
    assert_eq!(sim, before);
    assert!(!trace.contains(&Action::StartService));
    assert!(!trace.contains(&Action::CreateService));
}

#[test]
fn windows_install_twice_succeeds_and_stays_running() {
    let mut sim = WinSim { binary: true, service: None };
    let (r1, _) = win_install_drive(&mut sim);
    assert_eq!(r1, Ok(()));
    let before = sim;
    let (r2, _) = win_install_drive(&mut sim);
    assert_eq!(r2, Ok(()));
    assert_eq!(sim, before);
    assert_eq!(sim.service, Some(WinState::Running));
}

#[test]
fn windows_uninstall_when_never_installed_succeeds() {
    let mut sim = WinSim { binary: true, service: None };
    let (r, trace) = win_uninstall_drive(&mut sim);
    assert_eq!(r, Ok(()));
    assert_eq!(sim.service, None);
    assert!(!trace.contains(&Action::DeleteService));
}

#[test]
fn windows_uninstall_stops_then_deletes() {
    let mut sim = WinSim { binary: true, service: Some(WinState::Running) };
    let (r, trace) = win_uninstall_drive(&mut sim);
    assert_eq!(r, Ok(()));
    assert_eq!(sim.service, None);
    assert_eq!(
        trace,
        vec![
            Action::OpenManagerForDelete,
            Action::OpenServiceForDelete,
            Action::QueryServiceState,
            Action::StopServiceAndWait,
            Action::DeleteService,
            Action::Finish(Ok(())),
        ]
    );
}

#[test]
fn windows_uninstall_of_stopped_service_skips_the_stop() {
    let mut sim = WinSim { binary: true, service: Some(WinState::Stopped) };
    let (r, trace) = win_uninstall_drive(&mut sim);
    assert_eq!(r, Ok(()));
    assert_eq!(sim.service, None);
    assert!(!trace.contains(&Action::StopServiceAndWait));
}

#[test]
fn windows_missing_binary_fails_without_mutation() {
    let mut sim = WinSim { binary: false, service: None };
    let before = sim;
    let (r, _) = win_install_drive(&mut sim);
    assert_eq!(r, Err(SvcError::BinaryNotFound));
    assert_eq!(sim, before);
}

#[test]
fn windows_round_trip_matches_single_install() {
    let mut round = WinSim { binary: true, service: Some(WinState::Paused) };
    let (r1, _) = win_install_drive(&mut round);
    assert_eq!(r1, Ok(()));
    let (r2, _) = win_uninstall_drive(&mut round);
    assert_eq!(r2, Ok(()));
    let (r3, _) = win_install_drive(&mut round);
    assert_eq!(r3, Ok(()));

    let mut single = WinSim { binary: true, service: None };
    let (r, _) = win_install_drive(&mut single);
    assert_eq!(r, Ok(()));
    assert_eq!(round, single);
    assert_eq!(round.service, Some(WinState::Running));
}

#[test]
fn windows_propagated_failures() {
    assert_eq!(
        windows::on_manager_opened(false),
        Action::Finish(Err(SvcError::ManagerOpenFailed))
    );
    assert_eq!(
        windows::on_delete_manager_opened(false),
        Action::Finish(Err(SvcError::ManagerOpenFailed))
    );
    assert_eq!(
        windows::on_service_created(false),
        Action::Finish(Err(SvcError::CreateServiceFailed))
    );
    assert_eq!(
        windows::on_description_set(false),
        Action::Finish(Err(SvcError::SetDescriptionFailed))
    );
    assert_eq!(
        windows::on_start_finished(false),
        Action::Finish(Err(SvcError::StartFailed))
    );
    assert_eq!(
        windows::on_delete_service_opened(OpenOutcome::Failed),
        Action::Finish(Err(SvcError::ServiceOpenFailed))
    );
    assert_eq!(
        windows::on_delete_state_queried(None),
        Action::Finish(Err(SvcError::StatusCheckFailed))
    );
    assert_eq!(
        windows::on_service_deleted(false),
        Action::Finish(Err(SvcError::DeleteFailed))
    );
    // The stop before deletion is best-effort.
    assert_eq!(windows::on_stop_issued(false), Action::DeleteService);
}

#[test]
fn windows_failed_query_falls_through_to_creation_path() {
    assert_eq!(windows::on_state_queried(None), Action::CheckBinary);
    assert_eq!(
        windows::on_service_opened(OpenOutcome::Failed),
        Action::CheckBinary
    );
}
