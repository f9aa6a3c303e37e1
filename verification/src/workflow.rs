//! Installing and uninstalling as state machines.
//!
//! The library decides and the caller acts. A transition takes the stage
//! the workflow stands at and the event that reports how the last action
//! went, and gives the next stage and the next action. Reading files,
//! running commands and calling the privilege helper are the caller's part;
//! which of them happens, in which order and after which outcome is decided
//! here.
//!
//! An installation runs in two phases. The unprivileged one validates the
//! manifest, builds the artifact, takes its checksum and elevates. The
//! elevated one restores the directory, verifies the artifact against the
//! checksum that was handed on, installs binary and unit file and starts
//! the service. In a dry run every step that would change something is
//! described and not performed.

use vstd::prelude::*;
use crate::checksum::{checksum, checksum_of, lemma_checksum_detects_change};
use crate::elevation::{ChecksumClaim, ElevationContext};
use crate::manifest::{is_corky_package, marks_package};

verus! {

/// A step that changes the system.
#[derive(Clone, Copy, Debug, PartialEq, Eq, Structural)]
pub enum Task {
    /// Build the package's artifact.
    Build,
    /// Write the verified artifact to the binary directory, executable.
    InstallBinary,
    /// Write the unit file.
    WriteUnit,
    /// Refresh the file system labels of unit file and binary.
    RefreshLabels,
    /// Have the supervisor read its unit files again.
    ReloadSupervisor,
    /// Enable the service.
    EnableService,
    /// Start the service.
    StartService,
    /// Stop the service.
    StopService,
    /// Disable the service.
    DisableService,
    /// Remove the unit file.
    RemoveUnit,
    /// Clear the supervisor's record of the unit having failed.
    ClearFailed,
    /// Remove the installed binary.
    RemoveBinary,
}

/// Why a workflow ended without success.
#[derive(Clone, Copy, Debug, PartialEq, Eq, Structural)]
pub enum Failure {
    /// The directory holds no manifest that can be read.
    MissingManifest,
    /// The manifest lacks the marker of an installable package.
    NotAPackage,
    /// The build ended with an error.
    BuildFailed,
    /// The artifact cannot be read.
    ArtifactUnreadable,
    /// The process is the child of an elevation and would elevate again.
    ElevationLoop,
    /// The directory that the user stood in cannot be entered.
    DirectoryUnavailable,
    /// The artifact is not the one whose checksum was handed on.
    IntegrityViolation,
    /// The binary could not be written.
    InstallFailed,
    /// The unit file could not be written.
    UnitWriteFailed,
    /// The supervisor could not read its unit files again.
    ReloadFailed,
    /// The service could not be enabled.
    EnableFailed,
    /// The service could not be started.
    StartFailed,
    /// An event was reported that the stage does not wait for.
    OutOfTurn,
}

/// The kinds of failure.
#[derive(Clone, Copy, Debug, PartialEq, Eq, Structural)]
pub enum ErrorClass {
    /// The user can put it right: the manifest is missing or lacks the
    /// marker.
    UserError,
    /// The artifact was replaced between build and installation.
    IntegrityViolation,
    /// The builder, the supervisor or the file system failed.
    EnvironmentError,
    /// An elevated process would elevate again.
    ElevationLoop,
    /// The caller reported an event out of turn.
    ProtocolError,
}

/// What went wrong without ending the workflow.
#[derive(Clone, Copy, Debug, PartialEq, Eq, Structural)]
pub enum Warning {
    /// The manifest could not be read; the fallback name is used.
    MetadataFallback,
    /// The file system labels could not be refreshed.
    LabelRefreshFailed,
    /// The service could not be stopped.
    StopFailed,
    /// The service could not be disabled.
    DisableFailed,
    /// There was no unit file to remove.
    UnitMissing,
    /// The unit file could not be removed.
    UnitRemovalFailed,
    /// There was no binary to remove.
    BinaryMissing,
    /// The binary could not be removed.
    BinaryRemovalFailed,
}

/// What the caller does next.
#[derive(Clone, Copy, Debug, PartialEq, Eq)]
pub enum Action {
    /// Read the manifest and report its text.
    ReadManifest,
    /// Read the built artifact and report its bytes.
    ReadArtifact,
    /// Enter the directory that the context names.
    RestoreDirectory,
    /// Perform the task.
    Perform(Task),
    /// Print what the task would do.
    Describe(Task),
    /// Re-execute through the privilege helper, handing on this checksum,
    /// and report the child's exit code.
    Elevate(Option<u64>),
    /// End the process with this code.
    Exit(i32, Option<Failure>),
}

/// How the last action went.
#[derive(Debug, PartialEq, Eq)]
pub enum Event {
    /// Nothing was done yet.
    Started,
    /// The manifest's text, `None` where it could not be read.
    Manifest(Option<String>),
    /// The artifact's bytes, `None` where they could not be read.
    Artifact(Option<Vec<u8>>),
    /// The exit code of a command or a child process; of any other action,
    /// zero for success.
    Finished(i32),
    /// The file to remove was not there.
    Missing,
}

/// What an `Event` stands for.
pub enum EventModel {
    Started,
    Manifest(Option<Seq<char>>),
    Artifact(Option<Seq<u8>>),
    Finished(i32),
    Missing,
}

impl View for Event {
    type V = EventModel;

    open spec fn view(&self) -> EventModel {
        match self {
            Event::Started => EventModel::Started,
            Event::Manifest(Some(text)) => EventModel::Manifest(Some(text@)),
            Event::Manifest(None) => EventModel::Manifest(None),
            Event::Artifact(Some(bytes)) => EventModel::Artifact(Some(bytes@)),
            Event::Artifact(None) => EventModel::Artifact(None),
            Event::Finished(code) => EventModel::Finished(*code),
            Event::Missing => EventModel::Missing,
        }
    }
}

/// What a workflow knows from its start to its end.
#[derive(Clone, Copy, Debug, PartialEq, Eq)]
pub struct Setup {
    /// Whether the process has elevated rights.
    pub is_root: bool,
    /// Whether the run is dry.
    pub dry_run: bool,
    /// Whether the process is the child of an elevation.
    pub guard: bool,
    /// Whether the context names a directory to restore.
    pub has_directory: bool,
    /// The checksum that the context hands on.
    pub claim: ChecksumClaim,
}

/// Where an installation stands.
#[derive(Clone, Copy, Debug, PartialEq, Eq, Structural)]
pub enum InstallStage {
    Begin,
    /// Unprivileged: the manifest is being read for validation.
    Validating,
    /// Unprivileged: the artifact is being built.
    Building,
    /// Unprivileged: the artifact is being read for its checksum.
    Summing,
    /// Unprivileged: the elevated child runs.
    Elevating,
    /// Elevated: the user's directory is being entered.
    Restoring,
    /// Elevated: the manifest is being read for the target.
    Targeting,
    /// Elevated: the artifact is being read for verification.
    Verifying,
    /// Elevated: the binary is being written.
    Installing,
    /// Elevated: the unit file is being written.
    WritingUnit,
    /// Elevated: the labels are being refreshed.
    Relabeling,
    /// Elevated: the supervisor is reading its unit files again.
    Reloading,
    /// Elevated: the service is being enabled.
    Enabling,
    /// Elevated: the service is being started.
    Starting,
    /// The process was told to end.
    Done,
}

/// Where an uninstallation stands.
#[derive(Clone, Copy, Debug, PartialEq, Eq, Structural)]
pub enum UninstallStage {
    Begin,
    /// Unprivileged: the elevated child runs.
    Elevating,
    /// Elevated: the user's directory is being entered.
    Restoring,
    /// Elevated: the manifest is being read for the target.
    Targeting,
    /// Elevated: the service is being stopped.
    Stopping,
    /// Elevated: the service is being disabled.
    Disabling,
    /// Elevated: the unit file is being removed.
    RemovingUnit,
    /// Elevated: the supervisor is reading its unit files again.
    Reloading,
    /// Elevated: the record of a failure is being cleared.
    ClearingFailed,
    /// Elevated: the binary is being removed.
    RemovingBinary,
    /// The process was told to end.
    Done,
}

/// The two phases of a workflow. A process is in one of them from its
/// start to its end; the elevated phase is that of the child that the
/// unprivileged phase re-executes.
#[derive(Clone, Copy, Debug, PartialEq, Eq, Structural)]
pub enum Phase {
    Unprivileged,
    Elevated,
}

/// One transition of an installation.
#[derive(Clone, Copy, Debug, PartialEq, Eq)]
pub struct InstallStep {
    pub stage: InstallStage,
    pub action: Action,
    pub warning: Option<Warning>,
}

/// One transition of an uninstallation.
#[derive(Clone, Copy, Debug, PartialEq, Eq)]
pub struct UninstallStep {
    pub stage: UninstallStage,
    pub action: Action,
    pub warning: Option<Warning>,
}

/// The setup of a process with these rights, this mode and this context.
pub open spec fn setup_of(is_root: bool, dry_run: bool, context: ElevationContext) -> Setup {
    Setup {
        is_root,
        dry_run,
        guard: context.guard,
        has_directory: context.directory is Some,
        claim: context.checksum,
    }
}

/// The kind of a failure.
pub open spec fn class_of(failure: Failure) -> ErrorClass {
    match failure {
        Failure::MissingManifest => ErrorClass::UserError,
        Failure::NotAPackage => ErrorClass::UserError,
        Failure::IntegrityViolation => ErrorClass::IntegrityViolation,
        Failure::ElevationLoop => ErrorClass::ElevationLoop,
        Failure::OutOfTurn => ErrorClass::ProtocolError,
        _ => ErrorClass::EnvironmentError,
    }
}

/// Whether a failure is that of a command, whose exit code the process
/// takes over.
pub open spec fn is_command_failure(failure: Failure) -> bool {
    failure == Failure::BuildFailed || failure == Failure::ReloadFailed || failure
        == Failure::EnableFailed || failure == Failure::StartFailed
}

/// The phase that a process with this setup works in.
pub open spec fn phase_of(setup: Setup) -> Phase {
    if setup.is_root {
        Phase::Elevated
    } else {
        Phase::Unprivileged
    }
}

/// The phase that a stage of an installation belongs to; none for the
/// first stage and the last, which both phases share.
pub open spec fn install_phase(stage: InstallStage) -> Option<Phase> {
    match stage {
        InstallStage::Begin => None,
        InstallStage::Done => None,
        InstallStage::Validating => Some(Phase::Unprivileged),
        InstallStage::Building => Some(Phase::Unprivileged),
        InstallStage::Summing => Some(Phase::Unprivileged),
        InstallStage::Elevating => Some(Phase::Unprivileged),
        _ => Some(Phase::Elevated),
    }
}

/// The phase that a stage of an uninstallation belongs to; none for the
/// first stage and the last.
pub open spec fn uninstall_phase(stage: UninstallStage) -> Option<Phase> {
    match stage {
        UninstallStage::Begin => None,
        UninstallStage::Done => None,
        UninstallStage::Elevating => Some(Phase::Unprivileged),
        _ => Some(Phase::Elevated),
    }
}

/// A task as the run's mode has it: described in a dry run, performed in
/// any other.
pub open spec fn in_mode(setup: Setup, task: Task) -> Action {
    if setup.dry_run {
        Action::Describe(task)
    } else {
        Action::Perform(task)
    }
}

/// Whether an artifact is the one that the claim speaks of. Where no
/// checksum was handed on there is nothing to hold it against; a claim that
/// is no checksum admits no artifact.
pub open spec fn admits(claim: ChecksumClaim, bytes: Seq<u8>) -> bool {
    match claim {
        ChecksumClaim::Absent => true,
        ChecksumClaim::Claimed(sum) => sum == checksum_of(bytes),
        ChecksumClaim::Malformed => false,
    }
}

/// The installation goes on.
pub open spec fn install_on(stage: InstallStage, action: Action) -> InstallStep {
    InstallStep { stage, action, warning: None }
}

/// The installation ends with a failure.
pub open spec fn install_fails(code: i32, failure: Failure) -> InstallStep {
    InstallStep { stage: InstallStage::Done, action: Action::Exit(code, Some(failure)), warning: None }
}

/// The installation hands over to the elevated child, or fails where the
/// process is such a child itself.
pub open spec fn install_elevates(setup: Setup, checksum: Option<u64>) -> InstallStep {
    if setup.guard {
        install_fails(1, Failure::ElevationLoop)
    } else {
        install_on(InstallStage::Elevating, Action::Elevate(checksum))
    }
}

/// A warning where the last action failed.
pub open spec fn warn_unless_zero(code: i32, warning: Warning) -> Option<Warning> {
    if code != 0 {
        Some(warning)
    } else {
        None
    }
}

/// The transitions of an installation.
pub open spec fn install_transition(
    setup: Setup,
    stage: InstallStage,
    event: EventModel,
) -> InstallStep {
    match (stage, event) {
        (InstallStage::Begin, EventModel::Started) => if !setup.is_root {
            install_on(InstallStage::Validating, Action::ReadManifest)
        } else if setup.has_directory {
            install_on(InstallStage::Restoring, Action::RestoreDirectory)
        } else {
            install_on(InstallStage::Targeting, Action::ReadManifest)
        },
        (InstallStage::Validating, EventModel::Manifest(None)) => install_fails(
            1,
            Failure::MissingManifest,
        ),
        (InstallStage::Validating, EventModel::Manifest(Some(text))) => if marks_package(text) {
            install_on(InstallStage::Building, in_mode(setup, Task::Build))
        } else {
            install_fails(1, Failure::NotAPackage)
        },
        (InstallStage::Building, EventModel::Finished(code)) => if code != 0 {
            install_fails(code, Failure::BuildFailed)
        } else if setup.dry_run {
            install_elevates(setup, None)
        } else {
            install_on(InstallStage::Summing, Action::ReadArtifact)
        },
        (InstallStage::Summing, EventModel::Artifact(None)) => install_fails(
            1,
            Failure::ArtifactUnreadable,
        ),
        (InstallStage::Summing, EventModel::Artifact(Some(bytes))) => install_elevates(
            setup,
            Some(checksum_of(bytes)),
        ),
        (InstallStage::Elevating, EventModel::Finished(code)) => InstallStep {
            stage: InstallStage::Done,
            action: Action::Exit(code, None),
            warning: None,
        },
        (InstallStage::Restoring, EventModel::Finished(code)) => if code != 0 {
            install_fails(1, Failure::DirectoryUnavailable)
        } else {
            install_on(InstallStage::Targeting, Action::ReadManifest)
        },
        (InstallStage::Targeting, EventModel::Manifest(manifest)) => InstallStep {
            stage: if setup.dry_run && setup.claim == ChecksumClaim::Absent {
                InstallStage::Installing
            } else {
                InstallStage::Verifying
            },
            action: if setup.dry_run && setup.claim == ChecksumClaim::Absent {
                Action::Describe(Task::InstallBinary)
            } else {
                Action::ReadArtifact
            },
            warning: if manifest is None {
                Some(Warning::MetadataFallback)
            } else {
                None
            },
        },
        (InstallStage::Verifying, EventModel::Artifact(None)) => install_fails(
            1,
            Failure::ArtifactUnreadable,
        ),
        (InstallStage::Verifying, EventModel::Artifact(Some(bytes))) => if admits(
            setup.claim,
            bytes,
        ) {
            install_on(InstallStage::Installing, in_mode(setup, Task::InstallBinary))
        } else {
            install_fails(1, Failure::IntegrityViolation)
        },
        (InstallStage::Installing, EventModel::Finished(code)) => if code != 0 {
            install_fails(1, Failure::InstallFailed)
        } else {
            install_on(InstallStage::WritingUnit, in_mode(setup, Task::WriteUnit))
        },
        (InstallStage::WritingUnit, EventModel::Finished(code)) => if code != 0 {
            install_fails(1, Failure::UnitWriteFailed)
        } else {
            install_on(InstallStage::Relabeling, in_mode(setup, Task::RefreshLabels))
        },
        (InstallStage::Relabeling, EventModel::Finished(code)) => InstallStep {
            stage: InstallStage::Reloading,
            action: in_mode(setup, Task::ReloadSupervisor),
            warning: warn_unless_zero(code, Warning::LabelRefreshFailed),
        },
        (InstallStage::Reloading, EventModel::Finished(code)) => if code != 0 {
            install_fails(code, Failure::ReloadFailed)
        } else {
            install_on(InstallStage::Enabling, in_mode(setup, Task::EnableService))
        },
        (InstallStage::Enabling, EventModel::Finished(code)) => if code != 0 {
            install_fails(code, Failure::EnableFailed)
        } else {
            install_on(InstallStage::Starting, in_mode(setup, Task::StartService))
        },
        (InstallStage::Starting, EventModel::Finished(code)) => if code != 0 {
            install_fails(code, Failure::StartFailed)
        } else {
            install_on(InstallStage::Done, Action::Exit(0, None))
        },
        _ => install_fails(1, Failure::OutOfTurn),
    }
}

/// The uninstallation goes on.
pub open spec fn uninstall_on(
    stage: UninstallStage,
    action: Action,
    warning: Option<Warning>,
) -> UninstallStep {
    UninstallStep { stage, action, warning }
}

/// The uninstallation ends with a failure.
pub open spec fn uninstall_fails(code: i32, failure: Failure) -> UninstallStep {
    UninstallStep {
        stage: UninstallStage::Done,
        action: Action::Exit(code, Some(failure)),
        warning: None,
    }
}

/// The warning that the removal of a file gives rise to.
pub open spec fn removal_warning(event: EventModel, missing: Warning, failed: Warning) -> Option<
    Warning,
> {
    match event {
        EventModel::Missing => Some(missing),
        EventModel::Finished(code) => warn_unless_zero(code, failed),
        _ => None,
    }
}

/// Whether an event reports on the removal of a file.
pub open spec fn reports_removal(event: EventModel) -> bool {
    event is Missing || event is Finished
}

/// The transitions of an uninstallation. Stopping, disabling and removing
/// go on whatever their outcome; only the supervisor's failing to read its
/// unit files again ends the workflow. Clearing the record of a failure is
/// quiet: its outcome gives no warning.
pub open spec fn uninstall_transition(
    setup: Setup,
    stage: UninstallStage,
    event: EventModel,
) -> UninstallStep {
    match (stage, event) {
        (UninstallStage::Begin, EventModel::Started) => if !setup.is_root {
            if setup.guard {
                uninstall_fails(1, Failure::ElevationLoop)
            } else {
                uninstall_on(UninstallStage::Elevating, Action::Elevate(None), None)
            }
        } else if setup.has_directory {
            uninstall_on(UninstallStage::Restoring, Action::RestoreDirectory, None)
        } else {
            uninstall_on(UninstallStage::Targeting, Action::ReadManifest, None)
        },
        (UninstallStage::Elevating, EventModel::Finished(code)) => UninstallStep {
            stage: UninstallStage::Done,
            action: Action::Exit(code, None),
            warning: None,
        },
        (UninstallStage::Restoring, EventModel::Finished(code)) => if code != 0 {
            uninstall_fails(1, Failure::DirectoryUnavailable)
        } else {
            uninstall_on(UninstallStage::Targeting, Action::ReadManifest, None)
        },
        (UninstallStage::Targeting, EventModel::Manifest(manifest)) => uninstall_on(
            UninstallStage::Stopping,
            in_mode(setup, Task::StopService),
            if manifest is None {
                Some(Warning::MetadataFallback)
            } else {
                None
            },
        ),
        (UninstallStage::Stopping, EventModel::Finished(code)) => uninstall_on(
            UninstallStage::Disabling,
            in_mode(setup, Task::DisableService),
            warn_unless_zero(code, Warning::StopFailed),
        ),
        (UninstallStage::Disabling, EventModel::Finished(code)) => uninstall_on(
            UninstallStage::RemovingUnit,
            in_mode(setup, Task::RemoveUnit),
            warn_unless_zero(code, Warning::DisableFailed),
        ),
        (UninstallStage::RemovingUnit, e) => if reports_removal(e) {
            uninstall_on(
                UninstallStage::Reloading,
                in_mode(setup, Task::ReloadSupervisor),
                removal_warning(e, Warning::UnitMissing, Warning::UnitRemovalFailed),
            )
        } else {
            uninstall_fails(1, Failure::OutOfTurn)
        },
        (UninstallStage::Reloading, EventModel::Finished(code)) => if code != 0 {
            uninstall_fails(code, Failure::ReloadFailed)
        } else {
            uninstall_on(UninstallStage::ClearingFailed, in_mode(setup, Task::ClearFailed), None)
        },
        (UninstallStage::ClearingFailed, EventModel::Finished(code)) => uninstall_on(
            UninstallStage::RemovingBinary,
            in_mode(setup, Task::RemoveBinary),
            None,
        ),
        (UninstallStage::RemovingBinary, e) => if reports_removal(e) {
            uninstall_on(
                UninstallStage::Done,
                Action::Exit(0, None),
                removal_warning(e, Warning::BinaryMissing, Warning::BinaryRemovalFailed),
            )
        } else {
            uninstall_fails(1, Failure::OutOfTurn)
        },
        _ => uninstall_fails(1, Failure::OutOfTurn),
    }
}

/// A dry run performs nothing: no transition of an installation or an
/// uninstallation in a dry run asks for a task to be performed.
pub proof fn lemma_dry_run_performs_nothing(
    setup: Setup,
    install: InstallStage,
    uninstall: UninstallStage,
    event: EventModel,
)
    requires
        setup.dry_run,
    ensures
        !(install_transition(setup, install, event).action is Perform),
        !(uninstall_transition(setup, uninstall, event).action is Perform),
{
}

/// The actions of an installation that stands at `stage` and is told
/// `events`, one after the other.
pub open spec fn install_actions(
    setup: Setup,
    stage: InstallStage,
    events: Seq<EventModel>,
) -> Seq<Action>
    decreases events.len(),
{
    if events.len() == 0 {
        Seq::empty()
    } else {
        let step = install_transition(setup, stage, events[0]);
        seq![step.action] + install_actions(setup, step.stage, events.drop_first())
    }
}

/// The actions of an uninstallation that stands at `stage` and is told
/// `events`, one after the other.
pub open spec fn uninstall_actions(
    setup: Setup,
    stage: UninstallStage,
    events: Seq<EventModel>,
) -> Seq<Action>
    decreases events.len(),
{
    if events.len() == 0 {
        Seq::empty()
    } else {
        let step = uninstall_transition(setup, stage, events[0]);
        seq![step.action] + uninstall_actions(setup, step.stage, events.drop_first())
    }
}

/// A dry run leaves the system as it was, however often it is run and
/// whatever it is told: none of the actions of a dry installation is the
/// performing of a task.
pub proof fn lemma_dry_install_changes_nothing(
    setup: Setup,
    stage: InstallStage,
    events: Seq<EventModel>,
    i: int,
)
    requires
        setup.dry_run,
        0 <= i < install_actions(setup, stage, events).len(),
    ensures
        !(install_actions(setup, stage, events)[i] is Perform),
    decreases events.len(),
{
    let step = install_transition(setup, stage, events[0]);
    if i > 0 {
        lemma_dry_install_changes_nothing(setup, step.stage, events.drop_first(), i - 1);
    }
}

/// None of the actions of a dry uninstallation is the performing of a
/// task.
pub proof fn lemma_dry_uninstall_changes_nothing(
    setup: Setup,
    stage: UninstallStage,
    events: Seq<EventModel>,
    i: int,
)
    requires
        setup.dry_run,
        0 <= i < uninstall_actions(setup, stage, events).len(),
    ensures
        !(uninstall_actions(setup, stage, events)[i] is Perform),
    decreases events.len(),
{
    let step = uninstall_transition(setup, stage, events[0]);
    if i > 0 {
        lemma_dry_uninstall_changes_nothing(setup, step.stage, events.drop_first(), i - 1);
    }
}

/// An unprivileged installation whose manifest lacks the marker does two
/// things, whatever it is told afterwards: it reads the manifest, and it
/// ends. It neither builds nor elevates.
pub proof fn lemma_invalid_manifest_run(setup: Setup, text: Seq<char>)
    requires
        !setup.is_root,
        !marks_package(text),
    ensures
        install_actions(
            setup,
            InstallStage::Begin,
            seq![EventModel::Started, EventModel::Manifest(Some(text))],
        ) == seq![Action::ReadManifest, Action::Exit(1, Some(Failure::NotAPackage))],
{
    let events = seq![EventModel::Started, EventModel::Manifest(Some(text))];
    let rest = events.drop_first();
    assert(rest == seq![EventModel::Manifest(Some(text))]);
    assert(rest.drop_first() == Seq::<EventModel>::empty());
    reveal_with_fuel(install_actions, 3);
    assert(install_actions(setup, InstallStage::Begin, events) =~= seq![
        Action::ReadManifest,
        Action::Exit(1, Some(Failure::NotAPackage)),
    ]);
}

/// An unprivileged installation whose manifest lacks the marker, or cannot
/// be read, ends with exit code 1 as soon as the manifest was looked at:
/// the only action before the exit is the reading of the manifest.
pub proof fn lemma_invalid_manifest_ends_install(setup: Setup, manifest: Option<Seq<char>>)
    requires
        !setup.is_root,
        manifest matches Some(text) ==> !marks_package(text),
    ensures
        install_transition(setup, InstallStage::Begin, EventModel::Started) == install_on(
            InstallStage::Validating,
            Action::ReadManifest,
        ),
        install_transition(setup, InstallStage::Validating, EventModel::Manifest(manifest)).stage
            == InstallStage::Done,
        install_transition(setup, InstallStage::Validating, EventModel::Manifest(manifest)).action
            == Action::Exit(
            1,
            Some(if manifest is None {
                Failure::MissingManifest
            } else {
                Failure::NotAPackage
            }),
        ),
{
}

/// The child of an elevation never elevates: with the guard set no
/// transition asks for an elevation, and where one would be due the
/// workflow ends with exit code 1 and the loop as its cause.
pub proof fn lemma_guard_stops_elevation(
    setup: Setup,
    install: InstallStage,
    uninstall: UninstallStage,
    event: EventModel,
)
    requires
        setup.guard,
    ensures
        !(install_transition(setup, install, event).action is Elevate),
        !(uninstall_transition(setup, uninstall, event).action is Elevate),
        !setup.is_root ==> uninstall_transition(setup, UninstallStage::Begin, EventModel::Started)
            == uninstall_fails(1, Failure::ElevationLoop),
        !setup.is_root && setup.dry_run ==> install_transition(
            setup,
            InstallStage::Building,
            EventModel::Finished(0),
        ) == install_fails(1, Failure::ElevationLoop),
        !setup.is_root ==> (forall|bytes: Seq<u8>|
            #[trigger] install_transition(
                setup,
                InstallStage::Summing,
                EventModel::Artifact(Some(bytes)),
            ) == install_fails(1, Failure::ElevationLoop)),
{
}

/// The exit code of a failed workflow is the failed command's own where a
/// command failed, and 1 after every other failure: a failure of the tool's
/// own checks, of a file operation, an integrity violation or an elevation
/// loop.
pub proof fn lemma_exit_codes(
    setup: Setup,
    install: InstallStage,
    uninstall: UninstallStage,
    event: EventModel,
)
    ensures
        install_transition(setup, install, event).action matches Action::Exit(code, Some(failure))
            ==> (if is_command_failure(failure) {
            event == EventModel::Finished(code)
        } else {
            code == 1
        }),
        uninstall_transition(setup, uninstall, event).action matches Action::Exit(
            code,
            Some(failure),
        ) ==> (if is_command_failure(failure) {
            event == EventModel::Finished(code)
        } else {
            code == 1
        }),
        install_transition(setup, install, event).action matches Action::Exit(_, Some(failure))
            ==> (is_command_failure(failure) ==> class_of(failure) == ErrorClass::EnvironmentError),
{
}

/// A process stays in its phase: the first transition enters the phase of
/// the process, and no transition leads from a stage of one phase to a
/// stage of the other. Only the elevated phase performs or describes a task
/// other than the build.
pub proof fn lemma_phase_is_kept(
    setup: Setup,
    install: InstallStage,
    uninstall: UninstallStage,
    event: EventModel,
)
    ensures
        install_phase(install_transition(setup, InstallStage::Begin, event).stage) matches Some(p)
            ==> p == phase_of(setup),
        uninstall_phase(uninstall_transition(setup, UninstallStage::Begin, event).stage) matches Some(
            p,
        ) ==> p == phase_of(setup),
        install_phase(install) matches Some(p) ==> (install_phase(
            install_transition(setup, install, event).stage,
        ) matches Some(q) ==> p == q),
        uninstall_phase(uninstall) matches Some(p) ==> (uninstall_phase(
            uninstall_transition(setup, uninstall, event).stage,
        ) matches Some(q) ==> p == q),
        install_phase(install) == Some(Phase::Unprivileged) ==> (install_transition(
            setup,
            install,
            event,
        ).action matches Action::Perform(task) ==> task == Task::Build),
        uninstall_phase(uninstall) == Some(Phase::Unprivileged) ==> !(uninstall_transition(
            setup,
            uninstall,
            event,
        ).action is Perform),
{
}

/// The binary is written only from an artifact that the claim admits: a
/// transition that asks for the binary to be installed is the one out of
/// the verification of such an artifact.
pub proof fn lemma_install_only_verified(setup: Setup, stage: InstallStage, event: EventModel)
    requires
        install_transition(setup, stage, event).action == Action::Perform(Task::InstallBinary),
    ensures
        stage == InstallStage::Verifying,
        event matches EventModel::Artifact(Some(bytes)) && admits(setup.claim, bytes),
{
}

/// An artifact of which one byte was changed after its checksum was taken
/// is not installed: its verification ends the workflow with an integrity
/// violation.
pub proof fn lemma_tampering_is_fatal(setup: Setup, built: Seq<u8>, i: int, b: u8)
    requires
        setup.claim == ChecksumClaim::Claimed(checksum_of(built)),
        0 <= i < built.len(),
        b != built[i],
    ensures
        install_transition(
            setup,
            InstallStage::Verifying,
            EventModel::Artifact(Some(built.update(i, b))),
        ) == install_fails(1, Failure::IntegrityViolation),
        install_transition(setup, InstallStage::Verifying, EventModel::Artifact(Some(built)))
            == install_on(InstallStage::Installing, in_mode(setup, Task::InstallBinary)),
{
    lemma_checksum_detects_change(built, i, b);
}

/// The unprivileged phase builds only a validated package and elevates
/// only after the build: a transition that asks for the build comes out of
/// the validation of a manifest that carries the marker, and one that asks
/// for an elevation comes out of the build or out of the taking of the
/// checksum, whose checksum it hands on.
pub proof fn lemma_unprivileged_order(setup: Setup, stage: InstallStage, event: EventModel)
    ensures
        install_transition(setup, stage, event).action == in_mode(setup, Task::Build) ==> stage
            == InstallStage::Validating && (event matches EventModel::Manifest(Some(text))
            && marks_package(text)),
        install_transition(setup, stage, event).action matches Action::Elevate(sum) ==> (stage
            == InstallStage::Building && event == EventModel::Finished(0) && setup.dry_run
            && sum is None) || (stage == InstallStage::Summing && (
        event matches EventModel::Artifact(Some(bytes)) && sum == Some(checksum_of(bytes)))),
{
}

/// A workflow that ends with a failure ends with a code that is not zero,
/// and a workflow that was told to end stays ended.
pub proof fn lemma_failures_exit_nonzero(
    setup: Setup,
    install: InstallStage,
    uninstall: UninstallStage,
    event: EventModel,
)
    ensures
        install_transition(setup, install, event).action matches Action::Exit(code, Some(_))
            ==> code != 0,
        uninstall_transition(setup, uninstall, event).action matches Action::Exit(code, Some(_))
            ==> code != 0,
        install_transition(setup, install, event).action is Exit <==> install_transition(
            setup,
            install,
            event,
        ).stage == InstallStage::Done,
        uninstall_transition(setup, uninstall, event).action is Exit <==> uninstall_transition(
            setup,
            uninstall,
            event,
        ).stage == UninstallStage::Done,
        install_transition(setup, InstallStage::Done, event) == install_fails(
            1,
            Failure::OutOfTurn,
        ),
        uninstall_transition(setup, UninstallStage::Done, event) == uninstall_fails(
            1,
            Failure::OutOfTurn,
        ),
{
}

impl Setup {
    /// The setup of a process with these rights, this mode and this
    /// context.
    pub fn new(is_root: bool, dry_run: bool, context: &ElevationContext) -> (out: Setup)
        ensures
            out == setup_of(is_root, dry_run, *context),
    {
        Setup {
            is_root,
            dry_run,
            guard: context.guard,
            has_directory: context.directory.is_some(),
            claim: context.checksum,
        }
    }

    fn in_mode(&self, task: Task) -> (out: Action)
        ensures
            out == in_mode(*self, task),
    {
        if self.dry_run {
            Action::Describe(task)
        } else {
            Action::Perform(task)
        }
    }
}

/// The kind of `failure`.
pub fn failure_class(failure: Failure) -> (out: ErrorClass)
    ensures
        out == class_of(failure),
{
    match failure {
        Failure::MissingManifest => ErrorClass::UserError,
        Failure::NotAPackage => ErrorClass::UserError,
        Failure::IntegrityViolation => ErrorClass::IntegrityViolation,
        Failure::ElevationLoop => ErrorClass::ElevationLoop,
        Failure::OutOfTurn => ErrorClass::ProtocolError,
        _ => ErrorClass::EnvironmentError,
    }
}

/// The phase that `stage` of an installation belongs to.
pub fn phase_of_install(stage: InstallStage) -> (out: Option<Phase>)
    ensures
        out == install_phase(stage),
{
    match stage {
        InstallStage::Begin => None,
        InstallStage::Done => None,
        InstallStage::Validating => Some(Phase::Unprivileged),
        InstallStage::Building => Some(Phase::Unprivileged),
        InstallStage::Summing => Some(Phase::Unprivileged),
        InstallStage::Elevating => Some(Phase::Unprivileged),
        _ => Some(Phase::Elevated),
    }
}

/// The phase that `stage` of an uninstallation belongs to.
pub fn phase_of_uninstall(stage: UninstallStage) -> (out: Option<Phase>)
    ensures
        out == uninstall_phase(stage),
{
    match stage {
        UninstallStage::Begin => None,
        UninstallStage::Done => None,
        UninstallStage::Elevating => Some(Phase::Unprivileged),
        _ => Some(Phase::Elevated),
    }
}

/// Whether `bytes` is the artifact that `claim` speaks of.
pub fn verify_artifact(claim: ChecksumClaim, bytes: &[u8]) -> (ok: bool)
    ensures
        ok == admits(claim, bytes@),
{
    match claim {
        ChecksumClaim::Absent => true,
        ChecksumClaim::Claimed(sum) => sum == checksum(bytes),
        ChecksumClaim::Malformed => false,
    }
}

fn install_on_exec(stage: InstallStage, action: Action) -> (out: InstallStep)
    ensures
        out == install_on(stage, action),
{
    InstallStep { stage, action, warning: None }
}

fn install_fails_exec(code: i32, failure: Failure) -> (out: InstallStep)
    ensures
        out == install_fails(code, failure),
{
    InstallStep { stage: InstallStage::Done, action: Action::Exit(code, Some(failure)), warning: None }
}

fn install_elevates_exec(setup: Setup, checksum: Option<u64>) -> (out: InstallStep)
    ensures
        out == install_elevates(setup, checksum),
{
    if setup.guard {
        install_fails_exec(1, Failure::ElevationLoop)
    } else {
        install_on_exec(InstallStage::Elevating, Action::Elevate(checksum))
    }
}

fn warning_unless_zero(code: i32, warning: Warning) -> (out: Option<Warning>)
    ensures
        out == warn_unless_zero(code, warning),
{
    if code != 0 {
        Some(warning)
    } else {
        None
    }
}

/// The next stage and action of an installation that stands at `stage`
/// and is told `event`.
pub fn install_step(setup: Setup, stage: InstallStage, event: &Event) -> (out: InstallStep)
    ensures
        out == install_transition(setup, stage, event@),
{
    match (stage, event) {
        (InstallStage::Begin, Event::Started) => {
            if !setup.is_root {
                install_on_exec(InstallStage::Validating, Action::ReadManifest)
            } else if setup.has_directory {
                install_on_exec(InstallStage::Restoring, Action::RestoreDirectory)
            } else {
                install_on_exec(InstallStage::Targeting, Action::ReadManifest)
            }
        },
        (InstallStage::Validating, Event::Manifest(None)) => install_fails_exec(
            1,
            Failure::MissingManifest,
        ),
        (InstallStage::Validating, Event::Manifest(Some(text))) => {
            if is_corky_package(text.as_str()) {
                install_on_exec(InstallStage::Building, setup.in_mode(Task::Build))
            } else {
                install_fails_exec(1, Failure::NotAPackage)
            }
        },
        (InstallStage::Building, Event::Finished(code)) => {
            if *code != 0 {
                install_fails_exec(*code, Failure::BuildFailed)
            } else if setup.dry_run {
                install_elevates_exec(setup, None)
            } else {
                install_on_exec(InstallStage::Summing, Action::ReadArtifact)
            }
        },
        (InstallStage::Summing, Event::Artifact(None)) => install_fails_exec(
            1,
            Failure::ArtifactUnreadable,
        ),
        (InstallStage::Summing, Event::Artifact(Some(bytes))) => install_elevates_exec(
            setup,
            Some(checksum(bytes.as_slice())),
        ),
        (InstallStage::Elevating, Event::Finished(code)) => InstallStep {
            stage: InstallStage::Done,
            action: Action::Exit(*code, None),
            warning: None,
        },
        (InstallStage::Restoring, Event::Finished(code)) => {
            if *code != 0 {
                install_fails_exec(1, Failure::DirectoryUnavailable)
            } else {
                install_on_exec(InstallStage::Targeting, Action::ReadManifest)
            }
        },
        (InstallStage::Targeting, Event::Manifest(manifest)) => {
            let skip = setup.dry_run && match setup.claim {
                ChecksumClaim::Absent => true,
                _ => false,
            };
            InstallStep {
                stage: if skip {
                    InstallStage::Installing
                } else {
                    InstallStage::Verifying
                },
                action: if skip {
                    Action::Describe(Task::InstallBinary)
                } else {
                    Action::ReadArtifact
                },
                warning: if manifest.is_none() {
                    Some(Warning::MetadataFallback)
                } else {
                    None
                },
            }
        },
        (InstallStage::Verifying, Event::Artifact(None)) => install_fails_exec(
            1,
            Failure::ArtifactUnreadable,
        ),
        (InstallStage::Verifying, Event::Artifact(Some(bytes))) => {
            if verify_artifact(setup.claim, bytes.as_slice()) {
                install_on_exec(InstallStage::Installing, setup.in_mode(Task::InstallBinary))
            } else {
                install_fails_exec(1, Failure::IntegrityViolation)
            }
        },
        (InstallStage::Installing, Event::Finished(code)) => {
            if *code != 0 {
                install_fails_exec(1, Failure::InstallFailed)
            } else {
                install_on_exec(InstallStage::WritingUnit, setup.in_mode(Task::WriteUnit))
            }
        },
        (InstallStage::WritingUnit, Event::Finished(code)) => {
            if *code != 0 {
                install_fails_exec(1, Failure::UnitWriteFailed)
            } else {
                install_on_exec(InstallStage::Relabeling, setup.in_mode(Task::RefreshLabels))
            }
        },
        (InstallStage::Relabeling, Event::Finished(code)) => InstallStep {
            stage: InstallStage::Reloading,
            action: setup.in_mode(Task::ReloadSupervisor),
            warning: warning_unless_zero(*code, Warning::LabelRefreshFailed),
        },
        (InstallStage::Reloading, Event::Finished(code)) => {
            if *code != 0 {
                install_fails_exec(*code, Failure::ReloadFailed)
            } else {
                install_on_exec(InstallStage::Enabling, setup.in_mode(Task::EnableService))
            }
        },
        (InstallStage::Enabling, Event::Finished(code)) => {
            if *code != 0 {
                install_fails_exec(*code, Failure::EnableFailed)
            } else {
                install_on_exec(InstallStage::Starting, setup.in_mode(Task::StartService))
            }
        },
        (InstallStage::Starting, Event::Finished(code)) => {
            if *code != 0 {
                install_fails_exec(*code, Failure::StartFailed)
            } else {
                install_on_exec(InstallStage::Done, Action::Exit(0, None))
            }
        },
        _ => install_fails_exec(1, Failure::OutOfTurn),
    }
}

fn uninstall_fails_exec(code: i32, failure: Failure) -> (out: UninstallStep)
    ensures
        out == uninstall_fails(code, failure),
{
    UninstallStep {
        stage: UninstallStage::Done,
        action: Action::Exit(code, Some(failure)),
        warning: None,
    }
}

fn removal_outcome(event: &Event, missing: Warning, failed: Warning) -> (out: Option<
    Option<Warning>,
>)
    ensures
        out is Some == reports_removal(event@),
        out matches Some(w) ==> w == removal_warning(event@, missing, failed),
{
    match event {
        Event::Missing => Some(Some(missing)),
        Event::Finished(code) => Some(warning_unless_zero(*code, failed)),
        _ => None,
    }
}

/// The next stage and action of an uninstallation that stands at `stage`
/// and is told `event`.
pub fn uninstall_step(setup: Setup, stage: UninstallStage, event: &Event) -> (out: UninstallStep)
    ensures
        out == uninstall_transition(setup, stage, event@),
{
    match (stage, event) {
        (UninstallStage::Begin, Event::Started) => {
            if !setup.is_root {
                if setup.guard {
                    uninstall_fails_exec(1, Failure::ElevationLoop)
                } else {
                    UninstallStep {
                        stage: UninstallStage::Elevating,
                        action: Action::Elevate(None),
                        warning: None,
                    }
                }
            } else if setup.has_directory {
                UninstallStep {
                    stage: UninstallStage::Restoring,
                    action: Action::RestoreDirectory,
                    warning: None,
                }
            } else {
                UninstallStep {
                    stage: UninstallStage::Targeting,
                    action: Action::ReadManifest,
                    warning: None,
                }
            }
        },
        (UninstallStage::Elevating, Event::Finished(code)) => UninstallStep {
            stage: UninstallStage::Done,
            action: Action::Exit(*code, None),
            warning: None,
        },
        (UninstallStage::Restoring, Event::Finished(code)) => {
            if *code != 0 {
                uninstall_fails_exec(1, Failure::DirectoryUnavailable)
            } else {
                UninstallStep {
                    stage: UninstallStage::Targeting,
                    action: Action::ReadManifest,
                    warning: None,
                }
            }
        },
        (UninstallStage::Targeting, Event::Manifest(manifest)) => UninstallStep {
            stage: UninstallStage::Stopping,
            action: setup.in_mode(Task::StopService),
            warning: if manifest.is_none() {
                Some(Warning::MetadataFallback)
            } else {
                None
            },
        },
        (UninstallStage::Stopping, Event::Finished(code)) => UninstallStep {
            stage: UninstallStage::Disabling,
            action: setup.in_mode(Task::DisableService),
            warning: warning_unless_zero(*code, Warning::StopFailed),
        },
        (UninstallStage::Disabling, Event::Finished(code)) => UninstallStep {
            stage: UninstallStage::RemovingUnit,
            action: setup.in_mode(Task::RemoveUnit),
            warning: warning_unless_zero(*code, Warning::DisableFailed),
        },
        (UninstallStage::RemovingUnit, e) => {
            match removal_outcome(e, Warning::UnitMissing, Warning::UnitRemovalFailed) {
                Some(warning) => UninstallStep {
                    stage: UninstallStage::Reloading,
                    action: setup.in_mode(Task::ReloadSupervisor),
                    warning,
                },
                None => uninstall_fails_exec(1, Failure::OutOfTurn),
            }
        },
        (UninstallStage::Reloading, Event::Finished(code)) => {
            if *code != 0 {
                uninstall_fails_exec(*code, Failure::ReloadFailed)
            } else {
                UninstallStep {
                    stage: UninstallStage::ClearingFailed,
                    action: setup.in_mode(Task::ClearFailed),
                    warning: None,
                }
            }
        },
        (UninstallStage::ClearingFailed, Event::Finished(_)) => UninstallStep {
            stage: UninstallStage::RemovingBinary,
            action: setup.in_mode(Task::RemoveBinary),
            warning: None,
        },
        (UninstallStage::RemovingBinary, e) => {
            match removal_outcome(e, Warning::BinaryMissing, Warning::BinaryRemovalFailed) {
                Some(warning) => UninstallStep {
                    stage: UninstallStage::Done,
                    action: Action::Exit(0, None),
                    warning,
                },
                None => uninstall_fails_exec(1, Failure::OutOfTurn),
            }
        },
        _ => uninstall_fails_exec(1, Failure::OutOfTurn),
    }
}

} // verus!
