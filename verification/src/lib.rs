//! Control logic of a privileged helper-service installer.
//!
//! The library decides, step by step, how to converge a service substrate
//! (Windows service manager, launchd, systemd) to "installed and running"
//! or "fully removed". Each decision function takes the observed outcome of
//! the previous step and answers with the next [`action::Action`]; a thin
//! driver performs the actions against the real substrate.

use vstd::prelude::*;

pub mod action;
pub mod cli;
pub mod command;
pub mod linux;
pub mod macos;
pub mod windows;

use crate::action::{Action, Platform};

verus! {

/// First action of the install sequence for the given platform.
pub open spec fn install_spec(platform: Platform) -> Action {
    match platform {
        Platform::Windows => Action::OpenManagerForCreate,
        Platform::MacOs => Action::CheckBinary,
        Platform::Linux => Action::CheckBinary,
    }
}

/// First action of the uninstall sequence for the given platform.
pub open spec fn uninstall_spec(platform: Platform) -> Action {
    match platform {
        Platform::Windows => Action::OpenManagerForDelete,
        Platform::MacOs => Action::LaunchStop,
        Platform::Linux => Action::StopUnit,
    }
}

/// Begin converging the platform's substrate to "installed and running".
pub fn install(platform: Platform) -> (a: Action)
    ensures
        a == install_spec(platform),
{
    match platform {
        Platform::Windows => Action::OpenManagerForCreate,
        Platform::MacOs => Action::CheckBinary,
        Platform::Linux => Action::CheckBinary,
    }
}

/// Begin converging the platform's substrate to "fully removed".
pub fn uninstall(platform: Platform) -> (a: Action)
    ensures
        a == uninstall_spec(platform),
{
    match platform {
        Platform::Windows => Action::OpenManagerForDelete,
        Platform::MacOs => Action::LaunchStop,
        Platform::Linux => Action::StopUnit,
    }
}

} // verus!
