//! Decision logic of the Windows backend: converging a service-manager
//! registration to "installed and running" or "fully removed".
//!
//! Install short-circuits when a registration already exists: a stopped or
//! paused service is only started, never recreated. Only when no
//! registration can be opened is the sibling binary required and a fresh
//! auto-start registration created, described, and started. Uninstall stops
//! a non-stopped service (best-effort, with a bounded grace wait) and then
//! deletes the registration; a registration that never existed counts as
//! already removed.

use vstd::prelude::*;

use crate::action::{Action, OpenOutcome, SvcError, WinState};

verus! {

/// The states the install path answers with a plain start call.
pub open spec fn is_startable(st: WinState) -> bool {
    ||| st == WinState::Stopped
    ||| st == WinState::StopPending
    ||| st == WinState::Paused
    ||| st == WinState::PausePending
}

// ---------------------------------------------------------------------------
// Install decisions
// ---------------------------------------------------------------------------

/// Failing to open the service manager with connect and create rights is
/// one of the deliberately propagated failures.
pub open spec fn on_manager_opened_spec(ok: bool) -> Action {
    if ok {
        Action::OpenServiceForStart
    } else {
        Action::Finish(Err(SvcError::ManagerOpenFailed))
    }
}

pub fn on_manager_opened(ok: bool) -> (a: Action)
    ensures
        a == on_manager_opened_spec(ok),
{
    if ok {
        Action::OpenServiceForStart
    } else {
        Action::Finish(Err(SvcError::ManagerOpenFailed))
    }
}

/// An open registration is queried; when none can be opened, install falls
/// through to the creation path, beginning with the binary check.
pub open spec fn on_service_opened_spec(outcome: OpenOutcome) -> Action {
    match outcome {
        OpenOutcome::Opened => Action::QueryServiceState,
        OpenOutcome::Missing => Action::CheckBinary,
        OpenOutcome::Failed => Action::CheckBinary,
    }
}

pub fn on_service_opened(outcome: OpenOutcome) -> (a: Action)
    ensures
        a == on_service_opened_spec(outcome),
{
    match outcome {
        OpenOutcome::Opened => Action::QueryServiceState,
        OpenOutcome::Missing => Action::CheckBinary,
        OpenOutcome::Failed => Action::CheckBinary,
    }
}

/// The short-circuit of an existing registration: a stopped or paused
/// service is started, any other state is already good enough — install
/// succeeds without recreating anything. A failed query falls through to
/// the creation path.
pub open spec fn on_state_queried_spec(state: Option<WinState>) -> Action {
    match state {
        Some(st) => if is_startable(st) {
            Action::StartService
        } else {
            Action::Finish(Ok(()))
        },
        None => Action::CheckBinary,
    }
}

pub fn on_state_queried(state: Option<WinState>) -> (a: Action)
    ensures
        a == on_state_queried_spec(state),
{
    match state {
        Some(st) => match st {
            WinState::Stopped => Action::StartService,
            WinState::StopPending => Action::StartService,
            WinState::Paused => Action::StartService,
            WinState::PausePending => Action::StartService,
            _ => Action::Finish(Ok(())),
        },
        None => Action::CheckBinary,
    }
}

/// On the creation path the sibling binary must exist; its absence is the
/// distinguished "binary not found" failure.
pub open spec fn on_binary_checked_spec(present: bool) -> Action {
    if present {
        Action::CreateService
    } else {
        Action::Finish(Err(SvcError::BinaryNotFound))
    }
}

pub fn on_binary_checked(present: bool) -> (a: Action)
    ensures
        a == on_binary_checked_spec(present),
{
    if present {
        Action::CreateService
    } else {
        Action::Finish(Err(SvcError::BinaryNotFound))
    }
}

/// Creating the fresh registration is propagated on failure; success is
/// followed by setting its description.
pub open spec fn on_service_created_spec(ok: bool) -> Action {
    if ok {
        Action::SetServiceDescription
    } else {
        Action::Finish(Err(SvcError::CreateServiceFailed))
    }
}

pub fn on_service_created(ok: bool) -> (a: Action)
    ensures
        a == on_service_created_spec(ok),
{
    if ok {
        Action::SetServiceDescription
    } else {
        Action::Finish(Err(SvcError::CreateServiceFailed))
    }
}

/// Setting the description is propagated on failure; success is followed by
/// the start.
pub open spec fn on_description_set_spec(ok: bool) -> Action {
    if ok {
        Action::StartService
    } else {
        Action::Finish(Err(SvcError::SetDescriptionFailed))
    }
}

pub fn on_description_set(ok: bool) -> (a: Action)
    ensures
        a == on_description_set_spec(ok),
{
    if ok {
        Action::StartService
    } else {
        Action::Finish(Err(SvcError::SetDescriptionFailed))
    }
}

/// Starting the service ends the install, on both the short-circuit and the
/// creation path; its failure is propagated.
pub open spec fn on_start_finished_spec(ok: bool) -> Action {
    if ok {
        Action::Finish(Ok(()))
    } else {
        Action::Finish(Err(SvcError::StartFailed))
    }
}

pub fn on_start_finished(ok: bool) -> (a: Action)
    ensures
        a == on_start_finished_spec(ok),
{
    if ok {
        Action::Finish(Ok(()))
    } else {
        Action::Finish(Err(SvcError::StartFailed))
    }
}

// ---------------------------------------------------------------------------
// Uninstall decisions
// ---------------------------------------------------------------------------

/// Failing to open the service manager is propagated here as well.
pub open spec fn on_delete_manager_opened_spec(ok: bool) -> Action {
    if ok {
        Action::OpenServiceForDelete
    } else {
        Action::Finish(Err(SvcError::ManagerOpenFailed))
    }
}

pub fn on_delete_manager_opened(ok: bool) -> (a: Action)
    ensures
        a == on_delete_manager_opened_spec(ok),
{
    if ok {
        Action::OpenServiceForDelete
    } else {
        Action::Finish(Err(SvcError::ManagerOpenFailed))
    }
}

/// A registration that never existed is already removed: uninstall succeeds.
/// Any other failure to open it is propagated.
pub open spec fn on_delete_service_opened_spec(outcome: OpenOutcome) -> Action {
    match outcome {
        OpenOutcome::Opened => Action::QueryServiceState,
        OpenOutcome::Missing => Action::Finish(Ok(())),
        OpenOutcome::Failed => Action::Finish(Err(SvcError::ServiceOpenFailed)),
    }
}

pub fn on_delete_service_opened(outcome: OpenOutcome) -> (a: Action)
    ensures
        a == on_delete_service_opened_spec(outcome),
{
    match outcome {
        OpenOutcome::Opened => Action::QueryServiceState,
        OpenOutcome::Missing => Action::Finish(Ok(())),
        OpenOutcome::Failed => Action::Finish(Err(SvcError::ServiceOpenFailed)),
    }
}

/// A stopped service is deleted at once; any other state gets a stop request
/// and the bounded grace wait first. A failed query is propagated.
pub open spec fn on_delete_state_queried_spec(state: Option<WinState>) -> Action {
    match state {
        Some(st) => if st == WinState::Stopped {
            Action::DeleteService
        } else {
            Action::StopServiceAndWait
        },
        None => Action::Finish(Err(SvcError::StatusCheckFailed)),
    }
}

pub fn on_delete_state_queried(state: Option<WinState>) -> (a: Action)
    ensures
        a == on_delete_state_queried_spec(state),
{
    match state {
        Some(st) => match st {
            WinState::Stopped => Action::DeleteService,
            _ => Action::StopServiceAndWait,
        },
        None => Action::Finish(Err(SvcError::StatusCheckFailed)),
    }
}

/// The stop before deletion is best-effort: delete follows either way.
pub open spec fn on_stop_issued_spec(ok: bool) -> Action {
    Action::DeleteService
}

pub fn on_stop_issued(ok: bool) -> (a: Action)
    ensures
        a == on_stop_issued_spec(ok),
{
    Action::DeleteService
}

/// Deleting the registration ends the uninstall; its failure is propagated.
pub open spec fn on_service_deleted_spec(ok: bool) -> Action {
    if ok {
        Action::Finish(Ok(()))
    } else {
        Action::Finish(Err(SvcError::DeleteFailed))
    }
}

pub fn on_service_deleted(ok: bool) -> (a: Action)
    ensures
        a == on_service_deleted_spec(ok),
{
    if ok {
        Action::Finish(Ok(()))
    } else {
        Action::Finish(Err(SvcError::DeleteFailed))
    }
}

// ---------------------------------------------------------------------------
// Abstract substrate and runs
// ---------------------------------------------------------------------------

/// Abstract state of the points of external state the Windows backend
/// touches: the sibling binary and the service manager's registration.
pub struct WinWorld {
    /// The sibling service binary exists next to the installer.
    pub binary_present: bool,
    /// The registration held by the service manager, if any, with its state.
    pub service: Option<WinState>,
}

/// How each action changes the abstract substrate when it succeeds.
pub open spec fn apply(w: WinWorld, a: Action) -> WinWorld {
    match a {
        Action::StartService => WinWorld { service: Some(WinState::Running), ..w },
        Action::CreateService => WinWorld { service: Some(WinState::Stopped), ..w },
        Action::StopServiceAndWait => WinWorld { service: Some(WinState::Stopped), ..w },
        Action::DeleteService => WinWorld { service: None, ..w },
        _ => w,
    }
}

/// What opening the registration yields for a given substrate state.
pub open spec fn open_outcome_of(w: WinWorld) -> OpenOutcome {
    if w.service is Some {
        OpenOutcome::Opened
    } else {
        OpenOutcome::Missing
    }
}

/// Replay the install decisions against a substrate whose operations succeed.
pub open spec fn install_run(w: WinWorld, a: Action, fuel: nat) -> Option<
    (WinWorld, Result<(), SvcError>),
>
    decreases fuel,
{
    match a {
        Action::Finish(r) => Some((w, r)),
        _ => {
            if fuel == 0 {
                None
            } else {
                let next = match a {
                    Action::OpenManagerForCreate => Some(on_manager_opened_spec(true)),
                    Action::OpenServiceForStart => Some(on_service_opened_spec(open_outcome_of(w))),
                    Action::QueryServiceState => Some(on_state_queried_spec(w.service)),
                    Action::CheckBinary => Some(on_binary_checked_spec(w.binary_present)),
                    Action::CreateService => Some(on_service_created_spec(true)),
                    Action::SetServiceDescription => Some(on_description_set_spec(true)),
                    Action::StartService => Some(on_start_finished_spec(true)),
                    _ => None,
                };
                match next {
                    Some(n) => install_run(apply(w, a), n, (fuel - 1) as nat),
                    None => None,
                }
            }
        },
    }
}

/// A whole install run from its first action.
pub open spec fn install_from(w: WinWorld) -> Option<(WinWorld, Result<(), SvcError>)> {
    install_run(w, Action::OpenManagerForCreate, 10)
}

/// Replay the uninstall decisions the same way.
pub open spec fn uninstall_run(w: WinWorld, a: Action, fuel: nat) -> Option<
    (WinWorld, Result<(), SvcError>),
>
    decreases fuel,
{
    match a {
        Action::Finish(r) => Some((w, r)),
        _ => {
            if fuel == 0 {
                None
            } else {
                let next = match a {
                    Action::OpenManagerForDelete => Some(on_delete_manager_opened_spec(true)),
                    Action::OpenServiceForDelete => Some(
                        on_delete_service_opened_spec(open_outcome_of(w)),
                    ),
                    Action::QueryServiceState => Some(on_delete_state_queried_spec(w.service)),
                    Action::StopServiceAndWait => Some(on_stop_issued_spec(true)),
                    Action::DeleteService => Some(on_service_deleted_spec(true)),
                    _ => None,
                };
                match next {
                    Some(n) => uninstall_run(apply(w, a), n, (fuel - 1) as nat),
                    None => None,
                }
            }
        },
    }
}

/// A whole uninstall run from its first action.
pub open spec fn uninstall_from(w: WinWorld) -> Option<(WinWorld, Result<(), SvcError>)> {
    uninstall_run(w, Action::OpenManagerForDelete, 8)
}

// ---------------------------------------------------------------------------
// Laws
// ---------------------------------------------------------------------------

/// The state install leaves behind: a fresh running registration where none
/// existed, a started one where a stopped or paused one existed, and an
/// untouched substrate where the registration was already under way.
pub open spec fn install_end(w: WinWorld) -> WinWorld {
    match w.service {
        None => WinWorld { binary_present: w.binary_present, service: Some(WinState::Running) },
        Some(st) => if is_startable(st) {
            WinWorld { binary_present: w.binary_present, service: Some(WinState::Running) }
        } else {
            w
        },
    }
}

/// When the sibling binary exists, install converges: it succeeds from every
/// starting state and ends in exactly [`install_end`] — registered, and
/// running unless the existing registration was already transitioning on
/// its own.
pub proof fn lemma_install_converges(w: WinWorld)
    requires
        w.binary_present,
    ensures
        install_from(w) == Some((install_end(w), Ok::<(), SvcError>(()))),
{
    reveal_with_fuel(install_run, 11);
}

/// Installing twice in a row succeeds both times and ends registered and
/// running; the second run finds the running service and changes nothing.
/// A pre-existing registration caught mid-transition (start or continue
/// pending) is the one starting state left out: install leaves it to finish
/// its own transition.
pub proof fn lemma_install_twice(w: WinWorld)
    requires
        w.binary_present,
        w.service matches Some(st) ==> is_startable(st) || st == WinState::Running,
    ensures
        install_from(w) is Some,
        install_from(w)->Some_0.1 == Ok::<(), SvcError>(()),
        install_from(install_from(w)->Some_0.0) == install_from(w),
        install_from(w)->Some_0.0.service == Some(WinState::Running),
{
    reveal_with_fuel(install_run, 11);
}

/// Uninstall converges from every starting state: it succeeds — also when
/// the service was never registered — and leaves no registration behind.
pub proof fn lemma_uninstall_converges(w: WinWorld)
    ensures
        uninstall_from(w) == Some(
            (
                WinWorld { binary_present: w.binary_present, service: None },
                Ok::<(), SvcError>(()),
            ),
        ),
{
    reveal_with_fuel(uninstall_run, 9);
}

/// When no registration exists, a missing sibling binary fails the install
/// with `BinaryNotFound` and mutates nothing.
pub proof fn lemma_missing_binary_mutates_nothing(w: WinWorld)
    requires
        !w.binary_present,
        w.service is None,
    ensures
        install_from(w) == Some((w, Err::<(), SvcError>(SvcError::BinaryNotFound))),
{
    reveal_with_fuel(install_run, 11);
}

/// An existing stopped or paused registration is only started: the decision
/// path answers the queried state with a start, never with a creation, and
/// the run ends running with the registration preserved.
pub proof fn lemma_existing_service_only_started(w: WinWorld, st: WinState)
    requires
        w.service == Some(st),
        is_startable(st),
    ensures
        on_state_queried_spec(Some(st)) == Action::StartService,
        install_from(w) == Some(
            (
                WinWorld { binary_present: w.binary_present, service: Some(WinState::Running) },
                Ok::<(), SvcError>(()),
            ),
        ),
{
    reveal_with_fuel(install_run, 11);
}

/// A registration that is neither stopped nor paused short-circuits install
/// to an immediate success that changes nothing at all.
pub proof fn lemma_running_service_untouched(w: WinWorld, st: WinState)
    requires
        w.service == Some(st),
        !is_startable(st),
    ensures
        install_from(w) == Some((w, Ok::<(), SvcError>(()))),
{
    reveal_with_fuel(install_run, 11);
}

/// Install, uninstall, install again ends in exactly the state a single
/// install reaches from a substrate with no registration: registered and
/// running.
pub proof fn lemma_round_trip(w: WinWorld)
    requires
        w.binary_present,
    ensures
        ({
            let w1 = install_from(w)->Some_0.0;
            let w2 = uninstall_from(w1)->Some_0.0;
            &&& install_from(w) is Some
            &&& uninstall_from(w1)->Some_0.1 == Ok::<(), SvcError>(())
            &&& install_from(w2) == install_from(
                WinWorld { binary_present: true, service: None },
            )
            &&& install_from(w2)->Some_0.0.service == Some(WinState::Running)
        }),
{
    reveal_with_fuel(install_run, 11);
    reveal_with_fuel(uninstall_run, 9);
}

} // verus!
