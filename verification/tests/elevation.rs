use corky::checksum::checksum;
use corky::directory::Scope;
use corky::elevation::{
    checksum_variable_name, directory_variable_name, forwarded_arguments, guard_variable_name,
    helper_name, plan_elevation, read_claim, requires_elevation, ChecksumClaim, ElevationContext,
    ElevationError, ElevationRequest, Operation, Verb,
};

const VERBS: [Verb; 7] = [
    Verb::Start,
    Verb::Stop,
    Verb::Restart,
    Verb::Enable,
    Verb::Disable,
    Verb::Status,
    Verb::Logs,
];

fn strings(words: &[&str]) -> Vec<String> {
    words.iter().map(|w| w.to_string()).collect()
}

fn lookup(environment: &[(String, String)], name: &str) -> Option<String> {
    environment.iter().find(|(n, _)| n == name).map(|(_, v)| v.clone())
}

fn fresh() -> ElevationContext {
    ElevationContext::from_environment(None, None, None)
}

#[test]
fn install_and_uninstall_always_need_elevation() {
    assert!(requires_elevation(Operation::Install));
    assert!(requires_elevation(Operation::Uninstall));
}

#[test]
fn listing_never_needs_elevation() {
    assert!(!requires_elevation(Operation::List));
}

#[test]
fn service_operations_need_elevation_for_the_system_scope_only() {
    for verb in VERBS {
        assert!(requires_elevation(Operation::Service(verb, Scope::System)));
        assert!(!requires_elevation(Operation::Service(verb, Scope::User)));
    }
}

#[test]
fn names_of_helper_and_variables() {
    assert_eq!(helper_name(), "sudo");
    assert_eq!(guard_variable_name(), "CORKY_ELEVATED");
    assert_eq!(directory_variable_name(), "CORKY_WORKING_DIR");
    assert_eq!(checksum_variable_name(), "CORKY_ARTIFACT_DIGEST");
}

#[test]
fn context_of_an_empty_environment() {
    assert_eq!(
        fresh(),
        ElevationContext { guard: false, directory: None, checksum: ChecksumClaim::Absent }
    );
    assert_eq!(fresh().to_environment(), Vec::<(String, String)>::new());
}

#[test]
fn guard_counts_whatever_it_holds() {
    assert!(ElevationContext::from_environment(Some("1"), None, None).guard);
    assert!(ElevationContext::from_environment(Some(""), None, None).guard);
    assert!(ElevationContext::from_environment(Some("0"), None, None).guard);
}

#[test]
fn claims_are_read() {
    assert_eq!(read_claim(None), ChecksumClaim::Absent);
    assert_eq!(read_claim(Some("cbf29ce484222325")), ChecksumClaim::Claimed(0xcbf29ce484222325));
    assert_eq!(read_claim(Some("")), ChecksumClaim::Malformed);
    assert_eq!(read_claim(Some("not a checksum")), ChecksumClaim::Malformed);
    assert_eq!(read_claim(Some("CBF29CE484222325")), ChecksumClaim::Malformed);
}

#[test]
fn child_context_sets_the_guard() {
    assert_eq!(
        ElevationContext::for_child(Some("/home/u/p"), Some(7)),
        ElevationContext {
            guard: true,
            directory: Some("/home/u/p".to_string()),
            checksum: ChecksumClaim::Claimed(7),
        }
    );
    assert_eq!(
        ElevationContext::for_child(None, None),
        ElevationContext { guard: true, directory: None, checksum: ChecksumClaim::Absent }
    );
}

#[test]
fn context_is_written_to_variables() {
    let context = ElevationContext::for_child(Some("/home/u/p"), Some(0x1a));
    assert_eq!(
        context.to_environment(),
        vec![
            ("CORKY_ELEVATED".to_string(), "1".to_string()),
            ("CORKY_WORKING_DIR".to_string(), "/home/u/p".to_string()),
            ("CORKY_ARTIFACT_DIGEST".to_string(), "000000000000001a".to_string()),
        ]
    );
    assert_eq!(
        ElevationContext::for_child(None, None).to_environment(),
        vec![("CORKY_ELEVATED".to_string(), "1".to_string())]
    );
}

#[test]
fn context_round_trips_through_the_environment() {
    let contexts = [
        ElevationContext { guard: false, directory: None, checksum: ChecksumClaim::Absent },
        ElevationContext {
            guard: true,
            directory: Some("/srv/π".to_string()),
            checksum: ChecksumClaim::Claimed(u64::MAX),
        },
        ElevationContext {
            guard: true,
            directory: Some(String::new()),
            checksum: ChecksumClaim::Malformed,
        },
        ElevationContext { guard: false, directory: None, checksum: ChecksumClaim::Claimed(0) },
    ];
    for context in contexts {
        let env = context.to_environment();
        let guard = lookup(&env, guard_variable_name());
        let directory = lookup(&env, directory_variable_name());
        let sum = lookup(&env, checksum_variable_name());
        assert_eq!(
            ElevationContext::from_environment(
                guard.as_deref(),
                directory.as_deref(),
                sum.as_deref()
            ),
            context
        );
    }
}

#[test]
fn dry_run_flag_is_forwarded_once() {
    assert_eq!(forwarded_arguments(&strings(&["install"]), true), strings(&["install", "--dry-run"]));
    assert_eq!(
        forwarded_arguments(&strings(&["install", "--dry-run"]), true),
        strings(&["install", "--dry-run"])
    );
    assert_eq!(forwarded_arguments(&strings(&["install"]), false), strings(&["install"]));
    assert_eq!(forwarded_arguments(&Vec::new(), true), strings(&["--dry-run"]));
    assert_eq!(
        forwarded_arguments(&strings(&["--dry-run=x", "uninstall"]), true),
        strings(&["--dry-run=x", "uninstall", "--dry-run"])
    );
}

#[test]
fn elevation_calls_the_helper_with_binary_arguments_and_context() {
    let sum = checksum(b"artifact");
    let got = plan_elevation(
        &fresh(),
        false,
        "/usr/local/bin/corky",
        &strings(&["install", "--dry-run"]),
        Some("/home/u/p"),
        Some(sum),
    );
    assert_eq!(
        got,
        Ok(ElevationRequest {
            prime: true,
            command: strings(&["sudo", "/usr/local/bin/corky", "install", "--dry-run"]),
            environment: ElevationContext::for_child(Some("/home/u/p"), Some(sum)).to_environment(),
        })
    );
    let request = got.unwrap();
    assert_eq!(lookup(&request.environment, "CORKY_ELEVATED"), Some("1".to_string()));
    assert_eq!(lookup(&request.environment, "CORKY_WORKING_DIR"), Some("/home/u/p".to_string()));
}

#[test]
fn elevation_without_directory_or_checksum() {
    let got = plan_elevation(&fresh(), true, "corky", &Vec::new(), None, None).unwrap();
    assert!(!got.prime);
    assert_eq!(got.command, strings(&["sudo", "corky"]));
    assert_eq!(got.environment, vec![("CORKY_ELEVATED".to_string(), "1".to_string())]);
}

#[test]
fn second_elevation_is_refused() {
    let first = plan_elevation(&fresh(), false, "corky", &strings(&["start", "x"]), None, None)
        .unwrap();
    let guard = lookup(&first.environment, guard_variable_name());
    let child = ElevationContext::from_environment(guard.as_deref(), None, None);
    assert!(child.guard);
    for is_root in [false, true] {
        assert_eq!(
            plan_elevation(&child, is_root, "corky", &strings(&["start", "x"]), Some("/"), Some(1)),
            Err(ElevationError::ElevationLoop)
        );
    }
}
