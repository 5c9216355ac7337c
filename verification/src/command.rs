//! The fixed service definition: names, install paths, unit-definition
//! templates, and the table of control-surface commands with each step's
//! failure policy.

use vstd::prelude::*;

use crate::action::{Action, MacSetupStep, Policy};

verus! {

/// One control-surface command: a program, its arguments, and the failure
/// policy of the step that runs it.
#[derive(PartialEq, Eq, Debug)]
pub struct Command {
    pub program: String,
    pub args: Vec<String>,
    pub policy: Policy,
}

/// Name of the systemd unit, without the `.service` suffix.
pub open spec fn service_name_spec() -> Seq<char> {
    "clash-verge-service"@
}

/// File name of the sibling service binary next to the installer.
pub open spec fn binary_name_spec() -> Seq<char> {
    "clash-verge-service"@
}

/// File name of the sibling service binary on Windows.
pub open spec fn binary_name_windows_spec() -> Seq<char> {
    "clash-verge-service.exe"@
}

/// Name of the Windows service registration.
pub open spec fn win_service_name_spec() -> Seq<char> {
    "clash_verge_service"@
}

/// Display name of the Windows service registration.
pub open spec fn win_display_name_spec() -> Seq<char> {
    "Clash Verge Service"@
}

/// Description set on a fresh Windows service registration.
pub open spec fn win_description_spec() -> Seq<char> {
    "Clash Verge Service helps to launch clash core"@
}

/// Reverse-DNS label of the launchd helper.
pub open spec fn mac_label_spec() -> Seq<char> {
    "io.github.clashverge.helper"@
}

/// Directory that holds privileged helper binaries on macOS.
pub open spec fn helper_dir_spec() -> Seq<char> {
    "/Library/PrivilegedHelperTools"@
}

/// Full path of the installed helper binary on macOS.
pub open spec fn helper_path_spec() -> Seq<char> {
    "/Library/PrivilegedHelperTools/io.github.clashverge.helper"@
}

/// Directory that holds launch-daemon definitions on macOS.
pub open spec fn daemon_dir_spec() -> Seq<char> {
    "/Library/LaunchDaemons"@
}

/// Full path of the helper's plist on macOS.
pub open spec fn plist_path_spec() -> Seq<char> {
    "/Library/LaunchDaemons/io.github.clashverge.helper.plist"@
}

/// Full path of the systemd unit file on Linux.
pub open spec fn unit_path_spec() -> Seq<char> {
    "/etc/systemd/system/clash-verge-service.service"@
}

pub fn service_name() -> (r: String)
    ensures
        r@ == service_name_spec(),
{
    String::from_str("clash-verge-service")
}

pub fn binary_name() -> (r: String)
    ensures
        r@ == binary_name_spec(),
{
    String::from_str("clash-verge-service")
}

pub fn binary_name_windows() -> (r: String)
    ensures
        r@ == binary_name_windows_spec(),
{
    String::from_str("clash-verge-service.exe")
}

pub fn win_service_name() -> (r: String)
    ensures
        r@ == win_service_name_spec(),
{
    String::from_str("clash_verge_service")
}

pub fn win_display_name() -> (r: String)
    ensures
        r@ == win_display_name_spec(),
{
    String::from_str("Clash Verge Service")
}

pub fn win_description() -> (r: String)
    ensures
        r@ == win_description_spec(),
{
    String::from_str("Clash Verge Service helps to launch clash core")
}

pub fn helper_dir() -> (r: String)
    ensures
        r@ == helper_dir_spec(),
{
    String::from_str("/Library/PrivilegedHelperTools")
}

pub fn helper_path() -> (r: String)
    ensures
        r@ == helper_path_spec(),
{
    String::from_str("/Library/PrivilegedHelperTools/io.github.clashverge.helper")
}

pub fn daemon_dir() -> (r: String)
    ensures
        r@ == daemon_dir_spec(),
{
    String::from_str("/Library/LaunchDaemons")
}

pub fn plist_path() -> (r: String)
    ensures
        r@ == plist_path_spec(),
{
    String::from_str("/Library/LaunchDaemons/io.github.clashverge.helper.plist")
}

pub fn unit_path() -> (r: String)
    ensures
        r@ == unit_path_spec(),
{
    String::from_str("/etc/systemd/system/clash-verge-service.service")
}

/// Text of the systemd unit up to the substituted binary path.
pub open spec fn unit_prefix_spec() -> Seq<char> {
    "[Unit]\nDescription=Clash Verge Service\nAfter=network.target\n\n[Service]\nType=simple\nExecStart="@
}

/// Text of the systemd unit after the substituted binary path.
pub open spec fn unit_suffix_spec() -> Seq<char> {
    "\nRestart=on-failure\n\n[Install]\nWantedBy=multi-user.target\n"@
}

/// The rendered systemd unit: the template with the resolved binary path in
/// its one substitution slot.
pub open spec fn unit_content_spec(binary_path: Seq<char>) -> Seq<char> {
    unit_prefix_spec() + binary_path + unit_suffix_spec()
}

/// Render the systemd unit definition for the service binary at `binary_path`.
pub fn unit_content(binary_path: &str) -> (r: String)
    ensures
        r@ == unit_content_spec(binary_path@),
{
    let head = String::from_str(
        "[Unit]\nDescription=Clash Verge Service\nAfter=network.target\n\n[Service]\nType=simple\nExecStart=",
    );
    let with_path = head.concat(binary_path);
    with_path.concat("\nRestart=on-failure\n\n[Install]\nWantedBy=multi-user.target\n")
}

/// The launchd property list for the helper; static, with no substitution slot.
pub open spec fn plist_content_spec() -> Seq<char> {
    "<?xml version=\"1.0\" encoding=\"UTF-8\"?>\n<!DOCTYPE plist PUBLIC \"-//Apple//DTD PLIST 1.0//EN\" \"http://www.apple.com/DTDs/PropertyList-1.0.dtd\">\n<plist version=\"1.0\">\n<dict>\n    <key>Label</key>\n    <string>io.github.clashverge.helper</string>\n    <key>Program</key>\n    <string>/Library/PrivilegedHelperTools/io.github.clashverge.helper</string>\n    <key>RunAtLoad</key>\n    <true/>\n    <key>KeepAlive</key>\n    <false/>\n</dict>\n</plist>\n"@
}

/// The launchd property list written to the daemon directory.
pub fn plist_content() -> (r: String)
    ensures
        r@ == plist_content_spec(),
{
    String::from_str(
        "<?xml version=\"1.0\" encoding=\"UTF-8\"?>\n<!DOCTYPE plist PUBLIC \"-//Apple//DTD PLIST 1.0//EN\" \"http://www.apple.com/DTDs/PropertyList-1.0.dtd\">\n<plist version=\"1.0\">\n<dict>\n    <key>Label</key>\n    <string>io.github.clashverge.helper</string>\n    <key>Program</key>\n    <string>/Library/PrivilegedHelperTools/io.github.clashverge.helper</string>\n    <key>RunAtLoad</key>\n    <true/>\n    <key>KeepAlive</key>\n    <false/>\n</dict>\n</plist>\n",
    )
}

/// Does the action run a control-surface command (as opposed to a file
/// operation, a service-manager call, an existence check, or `Finish`)?
pub open spec fn is_command_action(a: Action) -> bool {
    match a {
        Action::QueryUnitStatus => true,
        Action::StartUnit => true,
        Action::DaemonReload => true,
        Action::EnableUnitNow => true,
        Action::StopUnit => true,
        Action::DisableUnit => true,
        Action::MacSetup(_) => true,
        Action::LaunchStop => true,
        Action::LaunchBootout => true,
        Action::LaunchDisable => true,
        _ => false,
    }
}

/// The command a given action runs: program, arguments, and step policy.
/// This is the declared table of the asymmetric error policy: exactly the
/// `Propagate` rows abort their sequence on failure.
pub open spec fn command_matches(a: Action, c: Command) -> bool {
    match a {
        Action::QueryUnitStatus => {
            &&& c.program@ == "systemctl"@
            &&& c.args@.len() == 3
            &&& c.args@[0]@ == "status"@
            &&& c.args@[1]@ == "clash-verge-service.service"@
            &&& c.args@[2]@ == "--no-pager"@
            &&& c.policy == Policy::Propagate
        },
        Action::StartUnit => {
            &&& c.program@ == "systemctl"@
            &&& c.args@.len() == 2
            &&& c.args@[0]@ == "start"@
            &&& c.args@[1]@ == "clash-verge-service.service"@
            &&& c.policy == Policy::Propagate
        },
        Action::DaemonReload => {
            &&& c.program@ == "systemctl"@
            &&& c.args@.len() == 1
            &&& c.args@[0]@ == "daemon-reload"@
            &&& c.policy == Policy::BestEffort
        },
        Action::EnableUnitNow => {
            &&& c.program@ == "systemctl"@
            &&& c.args@.len() == 3
            &&& c.args@[0]@ == "enable"@
            &&& c.args@[1]@ == "clash-verge-service"@
            &&& c.args@[2]@ == "--now"@
            &&& c.policy == Policy::BestEffort
        },
        Action::StopUnit => {
            &&& c.program@ == "systemctl"@
            &&& c.args@.len() == 2
            &&& c.args@[0]@ == "stop"@
            &&& c.args@[1]@ == "clash-verge-service.service"@
            &&& c.policy == Policy::BestEffort
        },
        Action::DisableUnit => {
            &&& c.program@ == "systemctl"@
            &&& c.args@.len() == 2
            &&& c.args@[0]@ == "disable"@
            &&& c.args@[1]@ == "clash-verge-service.service"@
            &&& c.policy == Policy::BestEffort
        },
        Action::MacSetup(step) => match step {
            MacSetupStep::ChmodPlist => {
                &&& c.program@ == "chmod"@
                &&& c.args@.len() == 2
                &&& c.args@[0]@ == "644"@
                &&& c.args@[1]@ == plist_path_spec()
                &&& c.policy == Policy::BestEffort
            },
            MacSetupStep::ChownPlist => {
                &&& c.program@ == "chown"@
                &&& c.args@.len() == 2
                &&& c.args@[0]@ == "root:wheel"@
                &&& c.args@[1]@ == plist_path_spec()
                &&& c.policy == Policy::BestEffort
            },
            MacSetupStep::ChmodBinary => {
                &&& c.program@ == "chmod"@
                &&& c.args@.len() == 2
                &&& c.args@[0]@ == "544"@
                &&& c.args@[1]@ == helper_path_spec()
                &&& c.policy == Policy::BestEffort
            },
            MacSetupStep::ChownBinary => {
                &&& c.program@ == "chown"@
                &&& c.args@.len() == 2
                &&& c.args@[0]@ == "root:wheel"@
                &&& c.args@[1]@ == helper_path_spec()
                &&& c.policy == Policy::BestEffort
            },
            MacSetupStep::LaunchEnable => {
                &&& c.program@ == "launchctl"@
                &&& c.args@.len() == 2
                &&& c.args@[0]@ == "enable"@
                &&& c.args@[1]@ == "system/io.github.clashverge.helper"@
                &&& c.policy == Policy::BestEffort
            },
            MacSetupStep::LaunchBootout => {
                &&& c.program@ == "launchctl"@
                &&& c.args@.len() == 3
                &&& c.args@[0]@ == "bootout"@
                &&& c.args@[1]@ == "system"@
                &&& c.args@[2]@ == plist_path_spec()
                &&& c.policy == Policy::BestEffort
            },
            MacSetupStep::LaunchBootstrap => {
                &&& c.program@ == "launchctl"@
                &&& c.args@.len() == 3
                &&& c.args@[0]@ == "bootstrap"@
                &&& c.args@[1]@ == "system"@
                &&& c.args@[2]@ == plist_path_spec()
                &&& c.policy == Policy::BestEffort
            },
            MacSetupStep::LaunchStart => {
                &&& c.program@ == "launchctl"@
                &&& c.args@.len() == 2
                &&& c.args@[0]@ == "start"@
                &&& c.args@[1]@ == "io.github.clashverge.helper"@
                &&& c.policy == Policy::BestEffort
            },
        },
        Action::LaunchStop => {
            &&& c.program@ == "launchctl"@
            &&& c.args@.len() == 2
            &&& c.args@[0]@ == "stop"@
            &&& c.args@[1]@ == "io.github.clashverge.helper"@
            &&& c.policy == Policy::BestEffort
        },
        Action::LaunchBootout => {
            &&& c.program@ == "launchctl"@
            &&& c.args@.len() == 3
            &&& c.args@[0]@ == "bootout"@
            &&& c.args@[1]@ == "system"@
            &&& c.args@[2]@ == plist_path_spec()
            &&& c.policy == Policy::BestEffort
        },
        Action::LaunchDisable => {
            &&& c.program@ == "launchctl"@
            &&& c.args@.len() == 2
            &&& c.args@[0]@ == "disable"@
            &&& c.args@[1]@ == "system/io.github.clashverge.helper"@
            &&& c.policy == Policy::Propagate
        },
        _ => false,
    }
}

fn command(program: &str, args: Vec<String>, policy: Policy) -> (c: Command)
    ensures
        c.program@ == program@,
        c.args == args,
        c.policy == policy,
{
    Command { program: String::from_str(program), args, policy }
}

fn one_arg(a0: &str) -> (v: Vec<String>)
    ensures
        v@.len() == 1,
        v@[0]@ == a0@,
{
    let mut v: Vec<String> = Vec::new();
    v.push(String::from_str(a0));
    v
}

fn two_args(a0: &str, a1: &str) -> (v: Vec<String>)
    ensures
        v@.len() == 2,
        v@[0]@ == a0@,
        v@[1]@ == a1@,
{
    let mut v: Vec<String> = Vec::new();
    v.push(String::from_str(a0));
    v.push(String::from_str(a1));
    v
}

fn three_args(a0: &str, a1: &str, a2: &str) -> (v: Vec<String>)
    ensures
        v@.len() == 3,
        v@[0]@ == a0@,
        v@[1]@ == a1@,
        v@[2]@ == a2@,
{
    let mut v: Vec<String> = Vec::new();
    v.push(String::from_str(a0));
    v.push(String::from_str(a1));
    v.push(String::from_str(a2));
    v
}

/// The command table: which control-surface command a command action runs,
/// and with which failure policy. Actions that are not commands get `None`.
pub fn command_of(a: &Action) -> (r: Option<Command>)
    ensures
        r is Some <==> is_command_action(*a),
        r is Some ==> command_matches(*a, r->Some_0),
{
    match a {
        Action::QueryUnitStatus => Some(
            command(
                "systemctl",
                three_args("status", "clash-verge-service.service", "--no-pager"),
                Policy::Propagate,
            ),
        ),
        Action::StartUnit => Some(
            command(
                "systemctl",
                two_args("start", "clash-verge-service.service"),
                Policy::Propagate,
            ),
        ),
        Action::DaemonReload => Some(
            command("systemctl", one_arg("daemon-reload"), Policy::BestEffort),
        ),
        Action::EnableUnitNow => Some(
            command(
                "systemctl",
                three_args("enable", "clash-verge-service", "--now"),
                Policy::BestEffort,
            ),
        ),
        Action::StopUnit => Some(
            command(
                "systemctl",
                two_args("stop", "clash-verge-service.service"),
                Policy::BestEffort,
            ),
        ),
        Action::DisableUnit => Some(
            command(
                "systemctl",
                two_args("disable", "clash-verge-service.service"),
                Policy::BestEffort,
            ),
        ),
        Action::MacSetup(step) => Some(mac_setup_command(step)),
        Action::LaunchStop => Some(
            command(
                "launchctl",
                two_args("stop", "io.github.clashverge.helper"),
                Policy::BestEffort,
            ),
        ),
        Action::LaunchBootout => Some(
            command(
                "launchctl",
                three_args(
                    "bootout",
                    "system",
                    "/Library/LaunchDaemons/io.github.clashverge.helper.plist",
                ),
                Policy::BestEffort,
            ),
        ),
        Action::LaunchDisable => Some(
            command(
                "launchctl",
                two_args("disable", "system/io.github.clashverge.helper"),
                Policy::Propagate,
            ),
        ),
        _ => None,
    }
}

fn mac_setup_command(step: &MacSetupStep) -> (c: Command)
    ensures
        command_matches(Action::MacSetup(*step), c),
{
    match step {
        MacSetupStep::ChmodPlist => command(
            "chmod",
            two_args("644", "/Library/LaunchDaemons/io.github.clashverge.helper.plist"),
            Policy::BestEffort,
        ),
        MacSetupStep::ChownPlist => command(
            "chown",
            two_args("root:wheel", "/Library/LaunchDaemons/io.github.clashverge.helper.plist"),
            Policy::BestEffort,
        ),
        MacSetupStep::ChmodBinary => command(
            "chmod",
            two_args("544", "/Library/PrivilegedHelperTools/io.github.clashverge.helper"),
            Policy::BestEffort,
        ),
        MacSetupStep::ChownBinary => command(
            "chown",
            two_args("root:wheel", "/Library/PrivilegedHelperTools/io.github.clashverge.helper"),
            Policy::BestEffort,
        ),
        MacSetupStep::LaunchEnable => command(
            "launchctl",
            two_args("enable", "system/io.github.clashverge.helper"),
            Policy::BestEffort,
        ),
        MacSetupStep::LaunchBootout => command(
            "launchctl",
            three_args(
                "bootout",
                "system",
                "/Library/LaunchDaemons/io.github.clashverge.helper.plist",
            ),
            Policy::BestEffort,
        ),
        MacSetupStep::LaunchBootstrap => command(
            "launchctl",
            three_args(
                "bootstrap",
                "system",
                "/Library/LaunchDaemons/io.github.clashverge.helper.plist",
            ),
            Policy::BestEffort,
        ),
        MacSetupStep::LaunchStart => command(
            "launchctl",
            two_args("start", "io.github.clashverge.helper"),
            Policy::BestEffort,
        ),
    }
}

} // verus!
