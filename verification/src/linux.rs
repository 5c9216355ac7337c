//! Decision logic of the Linux backend: converging a systemd unit to
//! "installed and running" or "fully removed".
//!
//! Each `on_*` function answers the observed outcome of the previous action
//! with the next one. The `*_run` functions replay the same decisions against
//! an abstract substrate ([`LinuxWorld`]) whose own operations succeed; the
//! proof functions below state the convergence laws over those runs.

use vstd::prelude::*;

use crate::action::{Action, StatusProbe, SvcError};

verus! {

// ---------------------------------------------------------------------------
// Install decisions
// ---------------------------------------------------------------------------

/// Install starts with the binary check; a missing sibling binary is fatal
/// before anything is mutated.
pub open spec fn on_binary_checked_spec(present: bool) -> Action {
    if present {
        Action::QueryUnitStatus
    } else {
        Action::Finish(Err(SvcError::BinaryNotFound))
    }
}

pub fn on_binary_checked(present: bool) -> (a: Action)
    ensures
        a == on_binary_checked_spec(present),
{
    if present {
        Action::QueryUnitStatus
    } else {
        Action::Finish(Err(SvcError::BinaryNotFound))
    }
}

/// The undocumented but load-bearing status-code mapping of the unit probe:
/// 0 means already running (succeed at once), 1, 2 and 3 are the known
/// "not running" variants (start the unit), 4 means the unit is unknown
/// (proceed to the full installation), everything else is a hard failure.
pub open spec fn on_status_probed_spec(probe: StatusProbe) -> Action {
    match probe {
        StatusProbe::SpawnFailed => Action::Finish(Err(SvcError::StatusQueryFailed)),
        StatusProbe::Exited(code) => match code {
            Some(c) => if c == 0 {
                Action::Finish(Ok(()))
            } else if 1 <= c && c <= 3 {
                Action::StartUnit
            } else if c == 4 {
                Action::WriteUnitFile
            } else {
                Action::Finish(Err(SvcError::UnexpectedStatusCode))
            },
            None => Action::Finish(Err(SvcError::UnexpectedStatusCode)),
        },
    }
}

pub fn on_status_probed(probe: StatusProbe) -> (a: Action)
    ensures
        a == on_status_probed_spec(probe),
{
    match probe {
        StatusProbe::SpawnFailed => Action::Finish(Err(SvcError::StatusQueryFailed)),
        StatusProbe::Exited(code) => match code {
            Some(c) => if c == 0 {
                Action::Finish(Ok(()))
            } else if 1 <= c && c <= 3 {
                Action::StartUnit
            } else if c == 4 {
                Action::WriteUnitFile
            } else {
                Action::Finish(Err(SvcError::UnexpectedStatusCode))
            },
            None => Action::Finish(Err(SvcError::UnexpectedStatusCode)),
        },
    }
}

/// Starting a known unit is the last step of its short-circuit path, and its
/// failure is propagated.
pub open spec fn on_start_finished_spec(ok: bool) -> Action {
    if ok {
        Action::Finish(Ok(()))
    } else {
        Action::Finish(Err(SvcError::StartFailed))
    }
}

pub fn on_start_finished(ok: bool) -> (a: Action)
    ensures
        a == on_start_finished_spec(ok),
{
    if ok {
        Action::Finish(Ok(()))
    } else {
        Action::Finish(Err(SvcError::StartFailed))
    }
}

/// A failed unit-file write is fatal; a successful one is followed by the
/// daemon reload.
pub open spec fn on_unit_written_spec(ok: bool) -> Action {
    if ok {
        Action::DaemonReload
    } else {
        Action::Finish(Err(SvcError::WriteFileFailed))
    }
}

pub fn on_unit_written(ok: bool) -> (a: Action)
    ensures
        a == on_unit_written_spec(ok),
{
    if ok {
        Action::DaemonReload
    } else {
        Action::Finish(Err(SvcError::WriteFileFailed))
    }
}

/// The reload is best-effort: whatever its outcome, enable the unit next.
pub open spec fn on_reloaded_spec(ok: bool) -> Action {
    Action::EnableUnitNow
}

pub fn on_reloaded(ok: bool) -> (a: Action)
    ensures
        a == on_reloaded_spec(ok),
{
    Action::EnableUnitNow
}

/// Enabling is best-effort too; install ends successfully either way.
pub open spec fn on_enabled_spec(ok: bool) -> Action {
    Action::Finish(Ok(()))
}

pub fn on_enabled(ok: bool) -> (a: Action)
    ensures
        a == on_enabled_spec(ok),
{
    Action::Finish(Ok(()))
}

// ---------------------------------------------------------------------------
// Uninstall decisions
// ---------------------------------------------------------------------------

/// Stopping the unit is best-effort: continue with disabling either way.
pub open spec fn on_stop_finished_spec(ok: bool) -> Action {
    Action::DisableUnit
}

pub fn on_stop_finished(ok: bool) -> (a: Action)
    ensures
        a == on_stop_finished_spec(ok),
{
    Action::DisableUnit
}

/// Disabling the unit is best-effort: continue with the file removal.
pub open spec fn on_disable_finished_spec(ok: bool) -> Action {
    Action::RemoveUnitFile
}

pub fn on_disable_finished(ok: bool) -> (a: Action)
    ensures
        a == on_disable_finished_spec(ok),
{
    Action::RemoveUnitFile
}

/// Removing the unit file tolerates its absence, but a unit file that exists
/// and cannot be removed is fatal.
pub open spec fn on_unit_removed_spec(ok: bool) -> Action {
    if ok {
        Action::DaemonReload
    } else {
        Action::Finish(Err(SvcError::RemoveFileFailed))
    }
}

pub fn on_unit_removed(ok: bool) -> (a: Action)
    ensures
        a == on_unit_removed_spec(ok),
{
    if ok {
        Action::DaemonReload
    } else {
        Action::Finish(Err(SvcError::RemoveFileFailed))
    }
}

/// The final reload of uninstall is best-effort; uninstall ends successfully.
pub open spec fn on_removal_reloaded_spec(ok: bool) -> Action {
    Action::Finish(Ok(()))
}

pub fn on_removal_reloaded(ok: bool) -> (a: Action)
    ensures
        a == on_removal_reloaded_spec(ok),
{
    Action::Finish(Ok(()))
}

// ---------------------------------------------------------------------------
// Abstract substrate and runs
// ---------------------------------------------------------------------------

/// Abstract state of the points of external state the Linux backend touches.
pub struct LinuxWorld {
    /// The sibling service binary exists next to the installer.
    pub binary_present: bool,
    /// The unit file exists under the systemd unit directory.
    pub unit_present: bool,
    /// systemd reports the unit as active.
    pub running: bool,
}

/// The exit code the status probe reports for a given substrate state:
/// 0 when active, 3 when known but inactive, 4 when unknown.
pub open spec fn status_code_of(w: LinuxWorld) -> Option<i32> {
    if w.running {
        Some(0)
    } else if w.unit_present {
        Some(3)
    } else {
        Some(4)
    }
}

/// How each action changes the abstract substrate when it succeeds.
pub open spec fn apply(w: LinuxWorld, a: Action) -> LinuxWorld {
    match a {
        Action::StartUnit => LinuxWorld {
            binary_present: w.binary_present,
            unit_present: w.unit_present,
            running: true,
        },
        Action::WriteUnitFile => LinuxWorld {
            binary_present: w.binary_present,
            unit_present: true,
            running: w.running,
        },
        Action::EnableUnitNow => LinuxWorld {
            binary_present: w.binary_present,
            unit_present: w.unit_present,
            running: true,
        },
        Action::StopUnit => LinuxWorld {
            binary_present: w.binary_present,
            unit_present: w.unit_present,
            running: false,
        },
        Action::RemoveUnitFile => LinuxWorld {
            binary_present: w.binary_present,
            unit_present: false,
            running: w.running,
        },
        _ => w,
    }
}

/// Replay the install decisions against a substrate whose operations succeed,
/// starting from action `a`. `None` means the run was cut off: either the
/// fuel ran out or an action outside the install sequence came up.
pub open spec fn install_run(w: LinuxWorld, a: Action, fuel: nat) -> Option<
    (LinuxWorld, Result<(), SvcError>),
>
    decreases fuel,
{
    match a {
        Action::Finish(r) => Some((w, r)),
        _ => {
            if fuel == 0 {
                None
            } else {
                let next = match a {
                    Action::CheckBinary => Some(on_binary_checked_spec(w.binary_present)),
                    Action::QueryUnitStatus => Some(
                        on_status_probed_spec(StatusProbe::Exited(status_code_of(w))),
                    ),
                    Action::StartUnit => Some(on_start_finished_spec(true)),
                    Action::WriteUnitFile => Some(on_unit_written_spec(true)),
                    Action::DaemonReload => Some(on_reloaded_spec(true)),
                    Action::EnableUnitNow => Some(on_enabled_spec(true)),
                    _ => None,
                };
                match next {
                    Some(n) => install_run(apply(w, a), n, (fuel - 1) as nat),
                    None => None,
                }
            }
        },
    }
}

/// A whole install run from its first action.
pub open spec fn install_from(w: LinuxWorld) -> Option<(LinuxWorld, Result<(), SvcError>)> {
    install_run(w, Action::CheckBinary, 8)
}

/// Replay the uninstall decisions the same way.
pub open spec fn uninstall_run(w: LinuxWorld, a: Action, fuel: nat) -> Option<
    (LinuxWorld, Result<(), SvcError>),
>
    decreases fuel,
{
    match a {
        Action::Finish(r) => Some((w, r)),
        _ => {
            if fuel == 0 {
                None
            } else {
                let next = match a {
                    Action::StopUnit => Some(on_stop_finished_spec(true)),
                    Action::DisableUnit => Some(on_disable_finished_spec(true)),
                    Action::RemoveUnitFile => Some(on_unit_removed_spec(true)),
                    Action::DaemonReload => Some(on_removal_reloaded_spec(true)),
                    _ => None,
                };
                match next {
                    Some(n) => uninstall_run(apply(w, a), n, (fuel - 1) as nat),
                    None => None,
                }
            }
        },
    }
}

/// A whole uninstall run from its first action.
pub open spec fn uninstall_from(w: LinuxWorld) -> Option<(LinuxWorld, Result<(), SvcError>)> {
    uninstall_run(w, Action::StopUnit, 8)
}

// ---------------------------------------------------------------------------
// Laws
// ---------------------------------------------------------------------------

/// When the sibling binary exists, install converges: it succeeds and leaves
/// the unit registered and running, whatever state the substrate started in.
pub proof fn lemma_install_converges(w: LinuxWorld)
    requires
        w.binary_present,
    ensures
        install_from(w) is Some,
        install_from(w)->Some_0.1 == Ok::<(), SvcError>(()),
        install_from(w)->Some_0.0.running,
        install_from(w)->Some_0.0.unit_present || w.running,
        install_from(w)->Some_0.0.binary_present,
{
    reveal_with_fuel(install_run, 9);
}

/// Installing twice in a row succeeds both times and still ends registered
/// and running; the second run finds the unit active and changes nothing.
pub proof fn lemma_install_twice(w: LinuxWorld)
    requires
        w.binary_present,
    ensures
        install_from(w) is Some,
        install_from(w)->Some_0.1 == Ok::<(), SvcError>(()),
        install_from(install_from(w)->Some_0.0) == Some(
            (install_from(w)->Some_0.0, Ok::<(), SvcError>(())),
        ),
        install_from(install_from(w)->Some_0.0)->Some_0.0.running,
{
    reveal_with_fuel(install_run, 9);
}

/// Uninstall converges from every starting state: it succeeds — also when
/// nothing was ever installed — and leaves the substrate fully removed.
pub proof fn lemma_uninstall_converges(w: LinuxWorld)
    ensures
        uninstall_from(w) == Some(
            (
                LinuxWorld { binary_present: w.binary_present, unit_present: false, running: false },
                Ok::<(), SvcError>(()),
            ),
        ),
{
    reveal_with_fuel(uninstall_run, 9);
}

/// A missing sibling binary fails the install with `BinaryNotFound` and
/// mutates nothing: the substrate is exactly as it was.
pub proof fn lemma_missing_binary_mutates_nothing(w: LinuxWorld)
    requires
        !w.binary_present,
    ensures
        install_from(w) == Some((w, Err::<(), SvcError>(SvcError::BinaryNotFound))),
{
    reveal_with_fuel(install_run, 9);
}

/// The status codes 0 to 3 short-circuit the install: the unit file is left
/// exactly as it was, and only the "not running" codes start the unit.
pub proof fn lemma_short_circuit_writes_no_unit(w: LinuxWorld)
    requires
        w.binary_present,
        w.unit_present || w.running,
    ensures
        install_from(w) is Some,
        install_from(w)->Some_0.1 == Ok::<(), SvcError>(()),
        install_from(w)->Some_0.0.unit_present == w.unit_present,
{
    reveal_with_fuel(install_run, 9);
}

/// Status-query ambiguity is a hard failure: an exit code the mapping does
/// not know is never treated as "absent" or "running", it aborts the install
/// before anything is mutated.
pub proof fn lemma_unknown_code_is_hard_failure(c: i32)
    requires
        c != 0,
        !(1 <= c && c <= 3),
        c != 4,
    ensures
        on_status_probed_spec(StatusProbe::Exited(Some(c))) == Action::Finish(
            Err::<(), SvcError>(SvcError::UnexpectedStatusCode),
        ),
        on_status_probed_spec(StatusProbe::Exited(None)) == Action::Finish(
            Err::<(), SvcError>(SvcError::UnexpectedStatusCode),
        ),
{
}

/// Install, uninstall, install again: the round trip ends in exactly the
/// state a single install reaches from a clean substrate — registered and
/// running.
pub proof fn lemma_round_trip(w: LinuxWorld)
    requires
        w.binary_present,
    ensures
        ({
            let w1 = install_from(w)->Some_0.0;
            let w2 = uninstall_from(w1)->Some_0.0;
            &&& install_from(w) is Some
            &&& install_from(w)->Some_0.1 == Ok::<(), SvcError>(())
            &&& uninstall_from(w1) is Some
            &&& uninstall_from(w1)->Some_0.1 == Ok::<(), SvcError>(())
            &&& install_from(w2) == install_from(
                LinuxWorld { binary_present: true, unit_present: false, running: false },
            )
            &&& install_from(w2)->Some_0.0.running
            &&& install_from(w2)->Some_0.1 == Ok::<(), SvcError>(())
        }),
{
    reveal_with_fuel(install_run, 9);
    reveal_with_fuel(uninstall_run, 9);
}

} // verus!
