//! The two-verb command-line contract: verb selection, the debug flag, the
//! process exit code, and the descriptive text of each failure.

use vstd::prelude::*;

use crate::action::{SvcError, Verb};

verus! {

/// Which verb a positional argument selects; anything else is a usage error.
pub open spec fn parse_verb_spec(arg: Seq<char>) -> Option<Verb> {
    if arg == "install"@ {
        Some(Verb::Install)
    } else if arg == "uninstall"@ {
        Some(Verb::Uninstall)
    } else {
        None
    }
}

/// Parse the positional verb argument.
pub fn parse_verb(arg: &String) -> (v: Option<Verb>)
    ensures
        v == parse_verb_spec(arg@),
{
    let install_word = String::from_str("install");
    let uninstall_word = String::from_str("uninstall");
    if *arg == install_word {
        Some(Verb::Install)
    } else if *arg == uninstall_word {
        Some(Verb::Uninstall)
    } else {
        None
    }
}

/// Whether the argument list carries the verbose-echo flag, anywhere in it.
pub fn has_debug_flag(args: &Vec<String>) -> (r: bool)
    ensures
        r == (exists|i: int| 0 <= i < args@.len() && args@[i]@ == "--debug"@),
{
    let flag = String::from_str("--debug");
    let mut k: usize = 0;
    while k < args.len()
        invariant
            k <= args@.len(),
            flag@ == "--debug"@,
            forall|i: int| 0 <= i < k ==> args@[i]@ != "--debug"@,
        decreases args@.len() - k,
    {
        if args[k] == flag {
            assert(args@[k as int]@ == "--debug"@);
            return true;
        }
        k += 1;
    }
    false
}

/// The exit code the process reports for an overall result: 0 on success,
/// the distinguished 2 when the sibling service binary was not found, and 1
/// for every other propagated failure.
pub open spec fn exit_code_spec(r: Result<(), SvcError>) -> i32 {
    match r {
        Ok(_) => 0,
        Err(SvcError::BinaryNotFound) => 2,
        Err(_) => 1,
    }
}

/// Map an overall result to the process exit code.
pub fn exit_code(r: &Result<(), SvcError>) -> (c: i32)
    ensures
        c == exit_code_spec(*r),
{
    match r {
        Ok(_) => 0,
        Err(SvcError::BinaryNotFound) => 2,
        Err(_) => 1,
    }
}

/// The descriptive text of each failure.
pub open spec fn message_spec(e: SvcError) -> Seq<char> {
    match e {
        SvcError::BinaryNotFound => "clash-verge-service binary not found"@,
        SvcError::StatusQueryFailed => "Failed to check service status"@,
        SvcError::UnexpectedStatusCode => "Unexpected systemctl status code"@,
        SvcError::CreateDirFailed => "Failed to create service file directory"@,
        SvcError::CopyFailed => "Failed to copy service file"@,
        SvcError::WriteFileFailed => "Failed to write service definition file"@,
        SvcError::RemoveFileFailed => "Failed to remove installed service file"@,
        SvcError::StartFailed => "Failed to start service"@,
        SvcError::DisableFailed => "Failed to disable service"@,
        SvcError::ManagerOpenFailed => "Failed to open service manager"@,
        SvcError::ServiceOpenFailed => "Failed to open service"@,
        SvcError::StatusCheckFailed => "Failed to query service status"@,
        SvcError::CreateServiceFailed => "Failed to create service"@,
        SvcError::SetDescriptionFailed => "Failed to set service description"@,
        SvcError::DeleteFailed => "Failed to delete service"@,
    }
}

/// Render the descriptive text of a failure.
pub fn message(e: &SvcError) -> (s: String)
    ensures
        s@ == message_spec(*e),
{
    match e {
        SvcError::BinaryNotFound => String::from_str("clash-verge-service binary not found"),
        SvcError::StatusQueryFailed => String::from_str("Failed to check service status"),
        SvcError::UnexpectedStatusCode => String::from_str("Unexpected systemctl status code"),
        SvcError::CreateDirFailed => String::from_str("Failed to create service file directory"),
        SvcError::CopyFailed => String::from_str("Failed to copy service file"),
        SvcError::WriteFileFailed => String::from_str("Failed to write service definition file"),
        SvcError::RemoveFileFailed => String::from_str("Failed to remove installed service file"),
        SvcError::StartFailed => String::from_str("Failed to start service"),
        SvcError::DisableFailed => String::from_str("Failed to disable service"),
        SvcError::ManagerOpenFailed => String::from_str("Failed to open service manager"),
        SvcError::ServiceOpenFailed => String::from_str("Failed to open service"),
        SvcError::StatusCheckFailed => String::from_str("Failed to query service status"),
        SvcError::CreateServiceFailed => String::from_str("Failed to create service"),
        SvcError::SetDescriptionFailed => String::from_str("Failed to set service description"),
        SvcError::DeleteFailed => String::from_str("Failed to delete service"),
    }
}

} // verus!
