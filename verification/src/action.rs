use vstd::prelude::*;

verus! {

/// The two verbs the installer understands.
#[derive(Clone, Copy, PartialEq, Eq, Debug)]
pub enum Verb {
    Install,
    Uninstall,
}

/// The service substrates the installer can converge.
#[derive(Clone, Copy, PartialEq, Eq, Debug)]
pub enum Platform {
    Windows,
    MacOs,
    Linux,
}

/// Failure policy of a single convergence step: a `Propagate` step aborts the
/// whole sequence when it fails, a `BestEffort` step has its failure observed
/// and swallowed because a later step is expected to self-correct.
#[derive(Clone, Copy, PartialEq, Eq, Debug)]
pub enum Policy {
    Propagate,
    BestEffort,
}

/// Every fatal condition an install or uninstall sequence can end in.
#[derive(Clone, Copy, PartialEq, Eq, Debug)]
pub enum SvcError {
    /// The sibling service binary is missing next to the installer.
    BinaryNotFound,
    /// The status probe of the unit could not be spawned.
    StatusQueryFailed,
    /// The status probe exited with a code outside the understood range.
    UnexpectedStatusCode,
    /// A protected directory could not be created.
    CreateDirFailed,
    /// The service binary could not be copied into the protected directory.
    CopyFailed,
    /// A unit definition file could not be written.
    WriteFileFailed,
    /// An installed artifact that exists could not be removed.
    RemoveFileFailed,
    /// The service could not be started.
    StartFailed,
    /// Disabling the service was refused; the helper is not in the expected state.
    DisableFailed,
    /// The service manager itself could not be opened.
    ManagerOpenFailed,
    /// An existing service registration could not be opened.
    ServiceOpenFailed,
    /// The state of an open service registration could not be queried.
    StatusCheckFailed,
    /// A new service registration could not be created.
    CreateServiceFailed,
    /// The description of a fresh registration could not be set.
    SetDescriptionFailed,
    /// The service registration could not be deleted.
    DeleteFailed,
}

/// The fixed chain of permission and launchd steps that follows a successful
/// file installation on macOS, in order.
#[derive(Clone, Copy, PartialEq, Eq, Debug)]
pub enum MacSetupStep {
    ChmodPlist,
    ChownPlist,
    ChmodBinary,
    ChownBinary,
    LaunchEnable,
    LaunchBootout,
    LaunchBootstrap,
    LaunchStart,
}

/// Service states as reported by the Windows service manager.
#[derive(Clone, Copy, PartialEq, Eq, Debug)]
pub enum WinState {
    Stopped,
    StartPending,
    StopPending,
    Running,
    ContinuePending,
    PausePending,
    Paused,
}

/// What opening an existing service registration yielded.
#[derive(Clone, Copy, PartialEq, Eq, Debug)]
pub enum OpenOutcome {
    /// The registration exists and was opened.
    Opened,
    /// No registration of that name exists.
    Missing,
    /// The open failed for another reason.
    Failed,
}

/// Result of the unit status probe: the probe process may fail to spawn, or
/// exit with an optional code.
#[derive(Clone, Copy, PartialEq, Eq, Debug)]
pub enum StatusProbe {
    SpawnFailed,
    Exited(Option<i32>),
}

/// One primitive step of a convergence sequence. The driver performs the
/// step against the real substrate and reports its outcome back to the
/// decision functions, which answer with the next action.
#[derive(Clone, Copy, PartialEq, Eq, Debug)]
pub enum Action {
    /// Check that the sibling service binary exists; mutates nothing.
    CheckBinary,
    // Linux: systemd control surface and unit file.
    QueryUnitStatus,
    StartUnit,
    WriteUnitFile,
    DaemonReload,
    EnableUnitNow,
    StopUnit,
    DisableUnit,
    RemoveUnitFile,
    // macOS: protected directories, launchd control surface and plist.
    EnsureHelperDir,
    CopyHelperBinary,
    EnsureDaemonDir,
    WritePlistFile,
    MacSetup(MacSetupStep),
    LaunchStop,
    LaunchBootout,
    LaunchDisable,
    RemovePlistFile,
    RemoveHelperBinary,
    // Windows: service manager calls.
    OpenManagerForCreate,
    OpenManagerForDelete,
    OpenServiceForStart,
    OpenServiceForDelete,
    QueryServiceState,
    StartService,
    CreateService,
    SetServiceDescription,
    StopServiceAndWait,
    DeleteService,
    /// The sequence is over, with its overall result.
    Finish(Result<(), SvcError>),
}

} // verus!
