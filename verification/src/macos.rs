//! Decision logic of the macOS backend: converging the launchd helper to
//! "installed and running" or "fully removed".
//!
//! Install copies the helper and its plist into the protected directories and
//! then walks a fixed chain of permission and launchd steps, every one of
//! them best-effort. Uninstall is best-effort too except for the `disable`
//! step, whose failure signals that the helper is not in the expected state
//! and is the one failure that is propagated.

use vstd::prelude::*;

use crate::action::{Action, MacSetupStep, SvcError};

verus! {

// ---------------------------------------------------------------------------
// Install decisions
// ---------------------------------------------------------------------------

/// A missing sibling binary is fatal before anything is mutated.
pub open spec fn on_binary_checked_spec(present: bool) -> Action {
    if present {
        Action::EnsureHelperDir
    } else {
        Action::Finish(Err(SvcError::BinaryNotFound))
    }
}

pub fn on_binary_checked(present: bool) -> (a: Action)
    ensures
        a == on_binary_checked_spec(present),
{
    if present {
        Action::EnsureHelperDir
    } else {
        Action::Finish(Err(SvcError::BinaryNotFound))
    }
}

/// Failing to create the privileged tool directory is fatal.
pub open spec fn on_helper_dir_ensured_spec(ok: bool) -> Action {
    if ok {
        Action::CopyHelperBinary
    } else {
        Action::Finish(Err(SvcError::CreateDirFailed))
    }
}

pub fn on_helper_dir_ensured(ok: bool) -> (a: Action)
    ensures
        a == on_helper_dir_ensured_spec(ok),
{
    if ok {
        Action::CopyHelperBinary
    } else {
        Action::Finish(Err(SvcError::CreateDirFailed))
    }
}

/// Failing to copy the helper binary into place is fatal.
pub open spec fn on_binary_copied_spec(ok: bool) -> Action {
    if ok {
        Action::EnsureDaemonDir
    } else {
        Action::Finish(Err(SvcError::CopyFailed))
    }
}

pub fn on_binary_copied(ok: bool) -> (a: Action)
    ensures
        a == on_binary_copied_spec(ok),
{
    if ok {
        Action::EnsureDaemonDir
    } else {
        Action::Finish(Err(SvcError::CopyFailed))
    }
}

/// Failing to create the launch-daemon directory is fatal.
pub open spec fn on_daemon_dir_ensured_spec(ok: bool) -> Action {
    if ok {
        Action::WritePlistFile
    } else {
        Action::Finish(Err(SvcError::CreateDirFailed))
    }
}

pub fn on_daemon_dir_ensured(ok: bool) -> (a: Action)
    ensures
        a == on_daemon_dir_ensured_spec(ok),
{
    if ok {
        Action::WritePlistFile
    } else {
        Action::Finish(Err(SvcError::CreateDirFailed))
    }
}

/// Failing to write the plist is fatal; success opens the fixed setup chain.
pub open spec fn on_plist_written_spec(ok: bool) -> Action {
    if ok {
        Action::MacSetup(MacSetupStep::ChmodPlist)
    } else {
        Action::Finish(Err(SvcError::WriteFileFailed))
    }
}

pub fn on_plist_written(ok: bool) -> (a: Action)
    ensures
        a == on_plist_written_spec(ok),
{
    if ok {
        Action::MacSetup(MacSetupStep::ChmodPlist)
    } else {
        Action::Finish(Err(SvcError::WriteFileFailed))
    }
}

/// The fixed setup chain in order; every step is best-effort, so the next
/// step follows whatever the outcome was, and the last step ends the install
/// successfully.
pub open spec fn on_setup_step_finished_spec(step: MacSetupStep, ok: bool) -> Action {
    match step {
        MacSetupStep::ChmodPlist => Action::MacSetup(MacSetupStep::ChownPlist),
        MacSetupStep::ChownPlist => Action::MacSetup(MacSetupStep::ChmodBinary),
        MacSetupStep::ChmodBinary => Action::MacSetup(MacSetupStep::ChownBinary),
        MacSetupStep::ChownBinary => Action::MacSetup(MacSetupStep::LaunchEnable),
        MacSetupStep::LaunchEnable => Action::MacSetup(MacSetupStep::LaunchBootout),
        MacSetupStep::LaunchBootout => Action::MacSetup(MacSetupStep::LaunchBootstrap),
        MacSetupStep::LaunchBootstrap => Action::MacSetup(MacSetupStep::LaunchStart),
        MacSetupStep::LaunchStart => Action::Finish(Ok(())),
    }
}

pub fn on_setup_step_finished(step: MacSetupStep, ok: bool) -> (a: Action)
    ensures
        a == on_setup_step_finished_spec(step, ok),
{
    match step {
        MacSetupStep::ChmodPlist => Action::MacSetup(MacSetupStep::ChownPlist),
        MacSetupStep::ChownPlist => Action::MacSetup(MacSetupStep::ChmodBinary),
        MacSetupStep::ChmodBinary => Action::MacSetup(MacSetupStep::ChownBinary),
        MacSetupStep::ChownBinary => Action::MacSetup(MacSetupStep::LaunchEnable),
        MacSetupStep::LaunchEnable => Action::MacSetup(MacSetupStep::LaunchBootout),
        MacSetupStep::LaunchBootout => Action::MacSetup(MacSetupStep::LaunchBootstrap),
        MacSetupStep::LaunchBootstrap => Action::MacSetup(MacSetupStep::LaunchStart),
        MacSetupStep::LaunchStart => Action::Finish(Ok(())),
    }
}

// ---------------------------------------------------------------------------
// Uninstall decisions
// ---------------------------------------------------------------------------

/// Stopping the helper is best-effort: boot it out next either way.
pub open spec fn on_stop_finished_spec(ok: bool) -> Action {
    Action::LaunchBootout
}

pub fn on_stop_finished(ok: bool) -> (a: Action)
    ensures
        a == on_stop_finished_spec(ok),
{
    Action::LaunchBootout
}

/// Booting the helper out of the system domain is best-effort — it may never
/// have been loaded; disable it next either way.
pub open spec fn on_bootout_finished_spec(ok: bool) -> Action {
    Action::LaunchDisable
}

pub fn on_bootout_finished(ok: bool) -> (a: Action)
    ensures
        a == on_bootout_finished_spec(ok),
{
    Action::LaunchDisable
}

/// The one propagated launchd step: a failed `disable` aborts the uninstall,
/// even when the earlier stop and bootout failures were swallowed.
pub open spec fn on_disable_finished_spec(ok: bool) -> Action {
    if ok {
        Action::RemovePlistFile
    } else {
        Action::Finish(Err(SvcError::DisableFailed))
    }
}

pub fn on_disable_finished(ok: bool) -> (a: Action)
    ensures
        a == on_disable_finished_spec(ok),
{
    if ok {
        Action::RemovePlistFile
    } else {
        Action::Finish(Err(SvcError::DisableFailed))
    }
}

/// Removing the plist tolerates its absence; an existing plist that cannot
/// be removed is fatal.
pub open spec fn on_plist_removed_spec(ok: bool) -> Action {
    if ok {
        Action::RemoveHelperBinary
    } else {
        Action::Finish(Err(SvcError::RemoveFileFailed))
    }
}

pub fn on_plist_removed(ok: bool) -> (a: Action)
    ensures
        a == on_plist_removed_spec(ok),
{
    if ok {
        Action::RemoveHelperBinary
    } else {
        Action::Finish(Err(SvcError::RemoveFileFailed))
    }
}

/// Removing the installed helper binary ends the uninstall; absence is
/// tolerated, a failed removal of an existing binary is fatal.
pub open spec fn on_helper_removed_spec(ok: bool) -> Action {
    if ok {
        Action::Finish(Ok(()))
    } else {
        Action::Finish(Err(SvcError::RemoveFileFailed))
    }
}

pub fn on_helper_removed(ok: bool) -> (a: Action)
    ensures
        a == on_helper_removed_spec(ok),
{
    if ok {
        Action::Finish(Ok(()))
    } else {
        Action::Finish(Err(SvcError::RemoveFileFailed))
    }
}

// ---------------------------------------------------------------------------
// Abstract substrate and runs
// ---------------------------------------------------------------------------

/// Abstract state of the points of external state the macOS backend touches.
pub struct MacWorld {
    /// The sibling service binary exists next to the installer.
    pub binary_present: bool,
    /// The privileged tool directory exists.
    pub helper_dir_present: bool,
    /// The helper binary is installed under the privileged tool directory.
    pub helper_installed: bool,
    /// The launch-daemon directory exists.
    pub daemon_dir_present: bool,
    /// The helper's plist exists under the launch-daemon directory.
    pub plist_present: bool,
    /// launchd reports the helper as loaded and running.
    pub running: bool,
}

/// How each action changes the abstract substrate when it succeeds.
pub open spec fn apply(w: MacWorld, a: Action) -> MacWorld {
    match a {
        Action::EnsureHelperDir => MacWorld { helper_dir_present: true, ..w },
        Action::CopyHelperBinary => MacWorld { helper_installed: true, ..w },
        Action::EnsureDaemonDir => MacWorld { daemon_dir_present: true, ..w },
        Action::WritePlistFile => MacWorld { plist_present: true, ..w },
        Action::MacSetup(step) => match step {
            MacSetupStep::LaunchBootout => MacWorld { running: false, ..w },
            MacSetupStep::LaunchBootstrap => MacWorld { running: true, ..w },
            MacSetupStep::LaunchStart => MacWorld { running: true, ..w },
            _ => w,
        },
        Action::LaunchStop => MacWorld { running: false, ..w },
        Action::LaunchBootout => MacWorld { running: false, ..w },
        Action::RemovePlistFile => MacWorld { plist_present: false, ..w },
        Action::RemoveHelperBinary => MacWorld { helper_installed: false, ..w },
        _ => w,
    }
}

/// Replay the install decisions against a substrate whose operations succeed.
pub open spec fn install_run(w: MacWorld, a: Action, fuel: nat) -> Option<
    (MacWorld, Result<(), SvcError>),
>
    decreases fuel,
{
    match a {
        Action::Finish(r) => Some((w, r)),
        _ => {
            if fuel == 0 {
                None
            } else {
                let next = match a {
                    Action::CheckBinary => Some(on_binary_checked_spec(w.binary_present)),
                    Action::EnsureHelperDir => Some(on_helper_dir_ensured_spec(true)),
                    Action::CopyHelperBinary => Some(on_binary_copied_spec(true)),
                    Action::EnsureDaemonDir => Some(on_daemon_dir_ensured_spec(true)),
                    Action::WritePlistFile => Some(on_plist_written_spec(true)),
                    Action::MacSetup(step) => Some(on_setup_step_finished_spec(step, true)),
                    _ => None,
                };
                match next {
                    Some(n) => install_run(apply(w, a), n, (fuel - 1) as nat),
                    None => None,
                }
            }
        },
    }
}

/// A whole install run from its first action.
pub open spec fn install_from(w: MacWorld) -> Option<(MacWorld, Result<(), SvcError>)> {
    install_run(w, Action::CheckBinary, 16)
}

/// Replay the uninstall decisions the same way.
pub open spec fn uninstall_run(w: MacWorld, a: Action, fuel: nat) -> Option<
    (MacWorld, Result<(), SvcError>),
>
    decreases fuel,
{
    match a {
        Action::Finish(r) => Some((w, r)),
        _ => {
            if fuel == 0 {
                None
            } else {
                let next = match a {
                    Action::LaunchStop => Some(on_stop_finished_spec(true)),
                    Action::LaunchBootout => Some(on_bootout_finished_spec(true)),
                    Action::LaunchDisable => Some(on_disable_finished_spec(true)),
                    Action::RemovePlistFile => Some(on_plist_removed_spec(true)),
                    Action::RemoveHelperBinary => Some(on_helper_removed_spec(true)),
                    _ => None,
                };
                match next {
                    Some(n) => uninstall_run(apply(w, a), n, (fuel - 1) as nat),
                    None => None,
                }
            }
        },
    }
}

/// A whole uninstall run from its first action.
pub open spec fn uninstall_from(w: MacWorld) -> Option<(MacWorld, Result<(), SvcError>)> {
    uninstall_run(w, Action::LaunchStop, 8)
}

// ---------------------------------------------------------------------------
// Laws
// ---------------------------------------------------------------------------

/// When the sibling binary exists, install converges: it succeeds and leaves
/// the helper fully installed and running, whatever the starting state.
pub proof fn lemma_install_converges(w: MacWorld)
    requires
        w.binary_present,
    ensures
        install_from(w) == Some(
            (
                MacWorld {
                    binary_present: true,
                    helper_dir_present: true,
                    helper_installed: true,
                    daemon_dir_present: true,
                    plist_present: true,
                    running: true,
                },
                Ok::<(), SvcError>(()),
            ),
        ),
{
    reveal_with_fuel(install_run, 17);
}

/// Installing twice in a row succeeds both times and ends installed and
/// running.
pub proof fn lemma_install_twice(w: MacWorld)
    requires
        w.binary_present,
    ensures
        install_from(w) is Some,
        install_from(w)->Some_0.1 == Ok::<(), SvcError>(()),
        install_from(install_from(w)->Some_0.0) == install_from(w),
        install_from(w)->Some_0.0.running,
{
    reveal_with_fuel(install_run, 17);
}

/// Uninstall converges from every starting state: it succeeds — also when
/// nothing was ever installed — and removes both installed artifacts.
pub proof fn lemma_uninstall_converges(w: MacWorld)
    ensures
        uninstall_from(w) == Some(
            (
                MacWorld {
                    binary_present: w.binary_present,
                    helper_dir_present: w.helper_dir_present,
                    helper_installed: false,
                    daemon_dir_present: w.daemon_dir_present,
                    plist_present: false,
                    running: false,
                },
                Ok::<(), SvcError>(()),
            ),
        ),
{
    reveal_with_fuel(uninstall_run, 9);
}

/// A missing sibling binary fails the install with `BinaryNotFound` and
/// mutates nothing: the substrate is exactly as it was.
pub proof fn lemma_missing_binary_mutates_nothing(w: MacWorld)
    requires
        !w.binary_present,
    ensures
        install_from(w) == Some((w, Err::<(), SvcError>(SvcError::BinaryNotFound))),
{
    reveal_with_fuel(install_run, 17);
}

/// Install, uninstall, install again ends in exactly the state a single
/// install reaches: fully installed and running.
pub proof fn lemma_round_trip(w: MacWorld)
    requires
        w.binary_present,
    ensures
        ({
            let w1 = install_from(w)->Some_0.0;
            let w2 = uninstall_from(w1)->Some_0.0;
            &&& install_from(w) is Some
            &&& uninstall_from(w1)->Some_0.1 == Ok::<(), SvcError>(())
            &&& install_from(w2) == install_from(w)
            &&& install_from(w2)->Some_0.0.running
        }),
{
    reveal_with_fuel(install_run, 17);
    reveal_with_fuel(uninstall_run, 9);
}

/// The `disable` failure during uninstall is propagated to the caller even
/// when the stop and bootout steps before it failed and were swallowed.
pub proof fn lemma_disable_failure_propagates(stop_ok: bool, bootout_ok: bool)
    ensures
        on_stop_finished_spec(stop_ok) == Action::LaunchBootout,
        on_bootout_finished_spec(bootout_ok) == Action::LaunchDisable,
        on_disable_finished_spec(false) == Action::Finish(
            Err::<(), SvcError>(SvcError::DisableFailed),
        ),
{
}

} // verus!
