use corky::checksum::checksum;
use corky::elevation::{ChecksumClaim, ElevationContext};
use corky::workflow::{
    failure_class, install_step, phase_of_install, phase_of_uninstall, uninstall_step, verify_artifact, Action,
    ErrorClass, Event, Failure, InstallStage, InstallStep, Phase, Setup, Task, UninstallStage, UninstallStep,
    Warning,
};

const MANIFEST: &str = "[package]\nname = \"corky-alpha\"\n\n[corky]\nis_corky_package = true\n";

const INSTALL_STAGES: [InstallStage; 15] = [
    InstallStage::Begin,
    InstallStage::Validating,
    InstallStage::Building,
    InstallStage::Summing,
    InstallStage::Elevating,
    InstallStage::Restoring,
    InstallStage::Targeting,
    InstallStage::Verifying,
    InstallStage::Installing,
    InstallStage::WritingUnit,
    InstallStage::Relabeling,
    InstallStage::Reloading,
    InstallStage::Enabling,
    InstallStage::Starting,
    InstallStage::Done,
];

const UNINSTALL_STAGES: [UninstallStage; 11] = [
    UninstallStage::Begin,
    UninstallStage::Elevating,
    UninstallStage::Restoring,
    UninstallStage::Targeting,
    UninstallStage::Stopping,
    UninstallStage::Disabling,
    UninstallStage::RemovingUnit,
    UninstallStage::Reloading,
    UninstallStage::ClearingFailed,
    UninstallStage::RemovingBinary,
    UninstallStage::Done,
];

fn events() -> Vec<Event> {
    vec![
        Event::Started,
        Event::Manifest(None),
        Event::Manifest(Some(MANIFEST.to_string())),
        Event::Manifest(Some("[package]\n".to_string())),
        Event::Artifact(None),
        Event::Artifact(Some(b"artifact".to_vec())),
        Event::Finished(0),
        Event::Finished(1),
        Event::Finished(101),
        Event::Missing,
    ]
}

fn setups() -> Vec<Setup> {
    let mut out = Vec::new();
    for is_root in [false, true] {
        for dry_run in [false, true] {
            for guard in [false, true] {
                for has_directory in [false, true] {
                    for claim in [
                        ChecksumClaim::Absent,
                        ChecksumClaim::Claimed(checksum(b"artifact")),
                        ChecksumClaim::Claimed(1),
                        ChecksumClaim::Malformed,
                    ] {
                        out.push(Setup { is_root, dry_run, guard, has_directory, claim });
                    }
                }
            }
        }
    }
    out
}

fn unprivileged(dry_run: bool) -> Setup {
    Setup::new(false, dry_run, &ElevationContext::from_environment(None, None, None))
}

fn elevated(dry_run: bool, sum: Option<u64>) -> Setup {
    Setup::new(true, dry_run, &ElevationContext::for_child(Some("/home/u/p"), sum))
}

fn run_install(setup: Setup, events: Vec<Event>) -> Vec<InstallStep> {
    let mut stage = InstallStage::Begin;
    let mut steps = Vec::new();
    for event in events {
        let step = install_step(setup, stage, &event);
        stage = step.stage;
        steps.push(step);
    }
    steps
}

fn run_uninstall(setup: Setup, events: Vec<Event>) -> Vec<UninstallStep> {
    let mut stage = UninstallStage::Begin;
    let mut steps = Vec::new();
    for event in events {
        let step = uninstall_step(setup, stage, &event);
        stage = step.stage;
        steps.push(step);
    }
    steps
}

fn install_actions(setup: Setup, events: Vec<Event>) -> Vec<Action> {
    run_install(setup, events).iter().map(|s| s.action).collect()
}

fn uninstall_actions(setup: Setup, events: Vec<Event>) -> Vec<Action> {
    run_uninstall(setup, events).iter().map(|s| s.action).collect()
}

#[test]
fn setup_is_taken_from_the_context() {
    let context = ElevationContext::for_child(Some("/d"), Some(9));
    assert_eq!(
        Setup::new(true, false, &context),
        Setup {
            is_root: true,
            dry_run: false,
            guard: true,
            has_directory: true,
            claim: ChecksumClaim::Claimed(9),
        }
    );
    assert_eq!(
        unprivileged(true),
        Setup {
            is_root: false,
            dry_run: true,
            guard: false,
            has_directory: false,
            claim: ChecksumClaim::Absent,
        }
    );
}

#[test]
fn unprivileged_install_validates_builds_sums_and_elevates() {
    let artifact = b"artifact".to_vec();
    let got = install_actions(
        unprivileged(false),
        vec![
            Event::Started,
            Event::Manifest(Some(MANIFEST.to_string())),
            Event::Finished(0),
            Event::Artifact(Some(artifact.clone())),
            Event::Finished(0),
        ],
    );
    assert_eq!(
        got,
        vec![
            Action::ReadManifest,
            Action::Perform(Task::Build),
            Action::ReadArtifact,
            Action::Elevate(Some(checksum(&artifact))),
            Action::Exit(0, None),
        ]
    );
}

#[test]
fn install_without_the_marker_ends_before_build_and_elevation() {
    for dry_run in [false, true] {
        let got = run_install(
            unprivileged(dry_run),
            vec![Event::Started, Event::Manifest(Some("[package]\nname = \"x\"\n".to_string()))],
        );
        assert_eq!(
            got,
            vec![
                InstallStep {
                    stage: InstallStage::Validating,
                    action: Action::ReadManifest,
                    warning: None
                },
                InstallStep {
                    stage: InstallStage::Done,
                    action: Action::Exit(1, Some(Failure::NotAPackage)),
                    warning: None
                },
            ]
        );
    }
}

#[test]
fn install_without_a_manifest_ends_with_exit_code_one() {
    let got = install_actions(unprivileged(false), vec![Event::Started, Event::Manifest(None)]);
    assert_eq!(got, vec![Action::ReadManifest, Action::Exit(1, Some(Failure::MissingManifest))]);
}

#[test]
fn failed_build_ends_with_the_builders_exit_code() {
    let got = install_actions(
        unprivileged(false),
        vec![Event::Started, Event::Manifest(Some(MANIFEST.to_string())), Event::Finished(101)],
    );
    assert_eq!(got[2], Action::Exit(101, Some(Failure::BuildFailed)));
}

#[test]
fn unreadable_artifact_ends_the_unprivileged_phase() {
    let got = install_actions(
        unprivileged(false),
        vec![
            Event::Started,
            Event::Manifest(Some(MANIFEST.to_string())),
            Event::Finished(0),
            Event::Artifact(None),
        ],
    );
    assert_eq!(got[3], Action::Exit(1, Some(Failure::ArtifactUnreadable)));
}

#[test]
fn parent_ends_with_the_childs_exit_code() {
    for code in [0, 1, 7, 130] {
        assert_eq!(
            install_step(unprivileged(false), InstallStage::Elevating, &Event::Finished(code)),
            InstallStep {
                stage: InstallStage::Done,
                action: Action::Exit(code, None),
                warning: None
            }
        );
        assert_eq!(
            uninstall_step(unprivileged(false), UninstallStage::Elevating, &Event::Finished(code)),
            UninstallStep {
                stage: UninstallStage::Done,
                action: Action::Exit(code, None),
                warning: None
            }
        );
    }
}

#[test]
fn dry_unprivileged_install_describes_the_build_and_elevates_without_checksum() {
    let got = install_actions(
        unprivileged(true),
        vec![
            Event::Started,
            Event::Manifest(Some(MANIFEST.to_string())),
            Event::Finished(0),
            Event::Finished(0),
        ],
    );
    assert_eq!(
        got,
        vec![
            Action::ReadManifest,
            Action::Describe(Task::Build),
            Action::Elevate(None),
            Action::Exit(0, None),
        ]
    );
}

#[test]
fn elevated_install_verifies_installs_and_starts() {
    let artifact = b"artifact".to_vec();
    let got = run_install(
        elevated(false, Some(checksum(&artifact))),
        vec![
            Event::Started,
            Event::Finished(0),
            Event::Manifest(Some(MANIFEST.to_string())),
            Event::Artifact(Some(artifact)),
            Event::Finished(0),
            Event::Finished(0),
            Event::Finished(0),
            Event::Finished(0),
            Event::Finished(0),
            Event::Finished(0),
        ],
    );
    let actions: Vec<Action> = got.iter().map(|s| s.action).collect();
    assert_eq!(
        actions,
        vec![
            Action::RestoreDirectory,
            Action::ReadManifest,
            Action::ReadArtifact,
            Action::Perform(Task::InstallBinary),
            Action::Perform(Task::WriteUnit),
            Action::Perform(Task::RefreshLabels),
            Action::Perform(Task::ReloadSupervisor),
            Action::Perform(Task::EnableService),
            Action::Perform(Task::StartService),
            Action::Exit(0, None),
        ]
    );
    assert!(got.iter().all(|s| s.warning.is_none()));
    assert_eq!(got.last().unwrap().stage, InstallStage::Done);
}

#[test]
fn root_without_context_goes_straight_to_the_target() {
    let setup = Setup::new(true, false, &ElevationContext::from_environment(None, None, None));
    let got = install_actions(
        setup,
        vec![
            Event::Started,
            Event::Manifest(None),
            Event::Artifact(Some(b"anything".to_vec())),
        ],
    );
    assert_eq!(
        got,
        vec![Action::ReadManifest, Action::ReadArtifact, Action::Perform(Task::InstallBinary)]
    );
    let steps = run_install(setup, vec![Event::Started, Event::Manifest(None)]);
    assert_eq!(steps[1].warning, Some(Warning::MetadataFallback));
}

#[test]
fn tampered_artifact_is_an_integrity_violation() {
    let built = b"artifact".to_vec();
    let setup = elevated(false, Some(checksum(&built)));
    for i in 0..built.len() {
        let mut swapped = built.clone();
        swapped[i] ^= 0x01;
        assert_eq!(
            install_step(setup, InstallStage::Verifying, &Event::Artifact(Some(swapped))),
            InstallStep {
                stage: InstallStage::Done,
                action: Action::Exit(1, Some(Failure::IntegrityViolation)),
                warning: None
            }
        );
    }
    assert_eq!(
        install_step(setup, InstallStage::Verifying, &Event::Artifact(Some(built))).action,
        Action::Perform(Task::InstallBinary)
    );
}

#[test]
fn malformed_claim_admits_nothing() {
    let context = ElevationContext::from_environment(Some("1"), None, Some("garbage"));
    let setup = Setup::new(true, false, &context);
    assert_eq!(
        install_step(setup, InstallStage::Verifying, &Event::Artifact(Some(Vec::new()))).action,
        Action::Exit(1, Some(Failure::IntegrityViolation))
    );
    assert!(!verify_artifact(ChecksumClaim::Malformed, b""));
}

#[test]
fn artifacts_are_verified_against_the_claim() {
    assert!(verify_artifact(ChecksumClaim::Absent, b"anything"));
    assert!(verify_artifact(ChecksumClaim::Claimed(checksum(b"x")), b"x"));
    assert!(!verify_artifact(ChecksumClaim::Claimed(checksum(b"x")), b"y"));
    assert!(!verify_artifact(ChecksumClaim::Claimed(0), b""));
}

#[test]
fn label_refresh_failure_is_a_warning() {
    let setup = elevated(false, None);
    assert_eq!(
        install_step(setup, InstallStage::Relabeling, &Event::Finished(1)),
        InstallStep {
            stage: InstallStage::Reloading,
            action: Action::Perform(Task::ReloadSupervisor),
            warning: Some(Warning::LabelRefreshFailed),
        }
    );
    assert_eq!(
        install_step(setup, InstallStage::Relabeling, &Event::Finished(0)).warning,
        None
    );
}

#[test]
fn elevated_failures_end_the_workflow() {
    let setup = elevated(false, None);
    let cases = [
        (InstallStage::Restoring, Failure::DirectoryUnavailable, 1),
        (InstallStage::Installing, Failure::InstallFailed, 1),
        (InstallStage::WritingUnit, Failure::UnitWriteFailed, 1),
        (InstallStage::Reloading, Failure::ReloadFailed, 5),
        (InstallStage::Enabling, Failure::EnableFailed, 5),
        (InstallStage::Starting, Failure::StartFailed, 5),
    ];
    for (stage, failure, code) in cases {
        assert_eq!(
            install_step(setup, stage, &Event::Finished(5)),
            InstallStep {
                stage: InstallStage::Done,
                action: Action::Exit(code, Some(failure)),
                warning: None
            }
        );
    }
    assert_eq!(
        install_step(setup, InstallStage::Verifying, &Event::Artifact(None)).action,
        Action::Exit(1, Some(Failure::ArtifactUnreadable))
    );
}

#[test]
fn dry_elevated_install_describes_every_step() {
    let got = install_actions(
        elevated(true, None),
        vec![
            Event::Started,
            Event::Finished(0),
            Event::Manifest(Some(MANIFEST.to_string())),
            Event::Finished(0),
            Event::Finished(0),
            Event::Finished(0),
            Event::Finished(0),
            Event::Finished(0),
            Event::Finished(0),
        ],
    );
    assert_eq!(
        got,
        vec![
            Action::RestoreDirectory,
            Action::ReadManifest,
            Action::Describe(Task::InstallBinary),
            Action::Describe(Task::WriteUnit),
            Action::Describe(Task::RefreshLabels),
            Action::Describe(Task::ReloadSupervisor),
            Action::Describe(Task::EnableService),
            Action::Describe(Task::StartService),
            Action::Exit(0, None),
        ]
    );
}

#[test]
fn dry_run_twice_gives_the_same_run_and_performs_nothing() {
    let script = || {
        vec![
            Event::Started,
            Event::Finished(0),
            Event::Manifest(Some(MANIFEST.to_string())),
            Event::Finished(0),
            Event::Finished(0),
            Event::Finished(0),
            Event::Finished(0),
            Event::Finished(0),
            Event::Finished(0),
        ]
    };
    let first = run_install(elevated(true, None), script());
    let second = run_install(elevated(true, None), script());
    assert_eq!(first, second);
    for step in first {
        assert!(!matches!(step.action, Action::Perform(_)));
    }
}

#[test]
fn no_dry_transition_performs_a_task() {
    for setup in setups() {
        if !setup.dry_run {
            continue;
        }
        for event in events() {
            for stage in INSTALL_STAGES {
                assert!(!matches!(install_step(setup, stage, &event).action, Action::Perform(_)));
            }
            for stage in UNINSTALL_STAGES {
                assert!(!matches!(uninstall_step(setup, stage, &event).action, Action::Perform(_)));
            }
        }
    }
}

#[test]
fn no_guarded_transition_elevates() {
    for setup in setups() {
        if !setup.guard {
            continue;
        }
        for event in events() {
            for stage in INSTALL_STAGES {
                assert!(!matches!(install_step(setup, stage, &event).action, Action::Elevate(_)));
            }
            for stage in UNINSTALL_STAGES {
                assert!(!matches!(uninstall_step(setup, stage, &event).action, Action::Elevate(_)));
            }
        }
    }
}

#[test]
fn guarded_install_ends_with_the_loop_error_instead_of_elevating() {
    let child = ElevationContext::for_child(None, None);
    let setup = Setup::new(false, false, &child);
    let got = install_actions(
        setup,
        vec![
            Event::Started,
            Event::Manifest(Some(MANIFEST.to_string())),
            Event::Finished(0),
            Event::Artifact(Some(b"artifact".to_vec())),
        ],
    );
    assert_eq!(got[3], Action::Exit(1, Some(Failure::ElevationLoop)));
    let got = uninstall_actions(setup, vec![Event::Started]);
    assert_eq!(got, vec![Action::Exit(1, Some(Failure::ElevationLoop))]);
}

#[test]
fn failures_exit_nonzero_and_exits_are_final() {
    for setup in setups() {
        for event in events() {
            for stage in INSTALL_STAGES {
                let step = install_step(setup, stage, &event);
                match step.action {
                    Action::Exit(code, cause) => {
                        assert_eq!(step.stage, InstallStage::Done);
                        if cause.is_some() {
                            assert_ne!(code, 0);
                        }
                    }
                    _ => assert_ne!(step.stage, InstallStage::Done),
                }
            }
            assert_eq!(
                install_step(setup, InstallStage::Done, &event).action,
                Action::Exit(1, Some(Failure::OutOfTurn))
            );
            assert_eq!(
                uninstall_step(setup, UninstallStage::Done, &event).action,
                Action::Exit(1, Some(Failure::OutOfTurn))
            );
        }
    }
}

#[test]
fn events_out_of_turn_end_the_workflow() {
    let setup = unprivileged(false);
    assert_eq!(
        install_step(setup, InstallStage::Begin, &Event::Finished(0)).action,
        Action::Exit(1, Some(Failure::OutOfTurn))
    );
    assert_eq!(
        install_step(setup, InstallStage::Validating, &Event::Artifact(None)).action,
        Action::Exit(1, Some(Failure::OutOfTurn))
    );
    assert_eq!(
        install_step(setup, InstallStage::Installing, &Event::Missing).action,
        Action::Exit(1, Some(Failure::OutOfTurn))
    );
    assert_eq!(
        uninstall_step(setup, UninstallStage::RemovingUnit, &Event::Started).action,
        Action::Exit(1, Some(Failure::OutOfTurn))
    );
}

#[test]
fn unprivileged_uninstall_elevates() {
    let got = uninstall_actions(unprivileged(false), vec![Event::Started, Event::Finished(3)]);
    assert_eq!(got, vec![Action::Elevate(None), Action::Exit(3, None)]);
}

#[test]
fn elevated_uninstall_tears_down_in_order() {
    let got = run_uninstall(
        elevated(false, None),
        vec![
            Event::Started,
            Event::Finished(0),
            Event::Manifest(Some(MANIFEST.to_string())),
            Event::Finished(0),
            Event::Finished(0),
            Event::Finished(0),
            Event::Finished(0),
            Event::Finished(0),
            Event::Finished(0),
        ],
    );
    let actions: Vec<Action> = got.iter().map(|s| s.action).collect();
    assert_eq!(
        actions,
        vec![
            Action::RestoreDirectory,
            Action::ReadManifest,
            Action::Perform(Task::StopService),
            Action::Perform(Task::DisableService),
            Action::Perform(Task::RemoveUnit),
            Action::Perform(Task::ReloadSupervisor),
            Action::Perform(Task::ClearFailed),
            Action::Perform(Task::RemoveBinary),
            Action::Exit(0, None),
        ]
    );
    assert!(got.iter().all(|s| s.warning.is_none()));
}

#[test]
fn uninstall_goes_on_after_best_effort_failures() {
    let got = run_uninstall(
        elevated(false, None),
        vec![
            Event::Started,
            Event::Finished(0),
            Event::Manifest(None),
            Event::Finished(5),
            Event::Finished(1),
            Event::Missing,
            Event::Finished(0),
            Event::Finished(1),
            Event::Finished(1),
        ],
    );
    let warnings: Vec<Option<Warning>> = got.iter().map(|s| s.warning).collect();
    assert_eq!(
        warnings,
        vec![
            None,
            None,
            Some(Warning::MetadataFallback),
            Some(Warning::StopFailed),
            Some(Warning::DisableFailed),
            Some(Warning::UnitMissing),
            None,
            None,
            Some(Warning::BinaryRemovalFailed),
        ]
    );
    assert_eq!(got.last().unwrap().action, Action::Exit(0, None));
}

#[test]
fn uninstall_removal_warnings() {
    let setup = elevated(false, None);
    assert_eq!(
        uninstall_step(setup, UninstallStage::RemovingUnit, &Event::Finished(1)).warning,
        Some(Warning::UnitRemovalFailed)
    );
    assert_eq!(
        uninstall_step(setup, UninstallStage::RemovingBinary, &Event::Missing).warning,
        Some(Warning::BinaryMissing)
    );
    assert_eq!(
        uninstall_step(setup, UninstallStage::RemovingBinary, &Event::Finished(0)).warning,
        None
    );
}

#[test]
fn uninstall_fails_only_when_the_reload_fails() {
    let setup = elevated(false, None);
    assert_eq!(
        uninstall_step(setup, UninstallStage::Reloading, &Event::Finished(4)),
        UninstallStep {
            stage: UninstallStage::Done,
            action: Action::Exit(4, Some(Failure::ReloadFailed)),
            warning: None
        }
    );
    assert_eq!(
        uninstall_step(setup, UninstallStage::Restoring, &Event::Finished(1)).action,
        Action::Exit(1, Some(Failure::DirectoryUnavailable))
    );
}

#[test]
fn dry_uninstall_describes_every_step() {
    let got = uninstall_actions(
        elevated(true, None),
        vec![
            Event::Started,
            Event::Finished(0),
            Event::Manifest(Some(MANIFEST.to_string())),
            Event::Finished(0),
            Event::Finished(0),
            Event::Finished(0),
            Event::Finished(0),
            Event::Finished(0),
            Event::Finished(0),
        ],
    );
    assert_eq!(
        got,
        vec![
            Action::RestoreDirectory,
            Action::ReadManifest,
            Action::Describe(Task::StopService),
            Action::Describe(Task::DisableService),
            Action::Describe(Task::RemoveUnit),
            Action::Describe(Task::ReloadSupervisor),
            Action::Describe(Task::ClearFailed),
            Action::Describe(Task::RemoveBinary),
            Action::Exit(0, None),
        ]
    );
}

#[test]
fn a_process_stays_in_its_phase() {
    for setup in setups() {
        let own = if setup.is_root { Phase::Elevated } else { Phase::Unprivileged };
        for event in events() {
            for stage in INSTALL_STAGES {
                let next = install_step(setup, stage, &event).stage;
                if let Some(after) = phase_of_install(next) {
                    assert_eq!(phase_of_install(stage).unwrap_or(own), after);
                }
            }
            for stage in UNINSTALL_STAGES {
                let next = uninstall_step(setup, stage, &event).stage;
                if let Some(after) = phase_of_uninstall(next) {
                    assert_eq!(phase_of_uninstall(stage).unwrap_or(own), after);
                }
            }
        }
    }
}

#[test]
fn stages_belong_to_phases() {
    assert_eq!(phase_of_install(InstallStage::Begin), None);
    assert_eq!(phase_of_install(InstallStage::Building), Some(Phase::Unprivileged));
    assert_eq!(phase_of_install(InstallStage::Elevating), Some(Phase::Unprivileged));
    assert_eq!(phase_of_install(InstallStage::Verifying), Some(Phase::Elevated));
    assert_eq!(phase_of_install(InstallStage::Starting), Some(Phase::Elevated));
    assert_eq!(phase_of_install(InstallStage::Done), None);
    assert_eq!(phase_of_uninstall(UninstallStage::Elevating), Some(Phase::Unprivileged));
    assert_eq!(phase_of_uninstall(UninstallStage::Stopping), Some(Phase::Elevated));
    assert_eq!(phase_of_uninstall(UninstallStage::Done), None);
}

#[test]
fn failures_have_classes() {
    let want = [
        (Failure::MissingManifest, ErrorClass::UserError),
        (Failure::NotAPackage, ErrorClass::UserError),
        (Failure::IntegrityViolation, ErrorClass::IntegrityViolation),
        (Failure::ElevationLoop, ErrorClass::ElevationLoop),
        (Failure::OutOfTurn, ErrorClass::ProtocolError),
        (Failure::BuildFailed, ErrorClass::EnvironmentError),
        (Failure::ArtifactUnreadable, ErrorClass::EnvironmentError),
        (Failure::DirectoryUnavailable, ErrorClass::EnvironmentError),
        (Failure::InstallFailed, ErrorClass::EnvironmentError),
        (Failure::UnitWriteFailed, ErrorClass::EnvironmentError),
        (Failure::ReloadFailed, ErrorClass::EnvironmentError),
        (Failure::EnableFailed, ErrorClass::EnvironmentError),
        (Failure::StartFailed, ErrorClass::EnvironmentError),
    ];
    for (failure, class) in want {
        assert_eq!(failure_class(failure), class);
    }
}

#[test]
fn user_errors_and_violations_exit_with_one() {
    for setup in setups() {
        for event in events() {
            for stage in INSTALL_STAGES {
                if let Action::Exit(code, Some(failure)) = install_step(setup, stage, &event).action {
                    if failure_class(failure) != ErrorClass::EnvironmentError {
                        assert_eq!(code, 1);
                    }
                }
            }
        }
    }
}
