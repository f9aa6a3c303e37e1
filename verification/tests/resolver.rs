use corky::directory::{list_corky_services, Scope, ServiceRecord};
use corky::elevation::{requires_elevation, Operation, Verb};
use corky::resolver::{
    conclude_selection, label, labels, plan_resolution, resolve, PromptReply, Resolution,
    ResolveError,
};
use corky::selector::ServiceSelector;
use corky::supervisor::{dispatch, Dispatch};

fn record(name: &str, scope: Scope) -> ServiceRecord {
    ServiceRecord { name: name.to_string(), scope }
}

fn custom(name: &str) -> Option<ServiceSelector> {
    Some(ServiceSelector::Custom(name.to_string()))
}

fn chosen(label: &str) -> PromptReply {
    PromptReply::Chosen(label.to_string())
}

#[test]
fn custom_resolves_with_or_without_prefix() {
    let dir = vec![
        record("corky-alpha", Scope::User),
        record("corky-beta", Scope::System),
        record("corky-gamma", Scope::User),
    ];
    for name in ["beta", "corky-beta"] {
        assert_eq!(
            resolve(&custom(name), &dir, &PromptReply::Cancelled),
            Ok(record("corky-beta", Scope::System))
        );
    }
}

#[test]
fn custom_on_a_directory_of_one() {
    let dir = vec![record("corky-alpha", Scope::User)];
    assert_eq!(
        resolve(&custom("alpha"), &dir, &PromptReply::Cancelled),
        Ok(record("corky-alpha", Scope::User))
    );
    assert_eq!(
        resolve(&custom("corky-alpha"), &dir, &chosen("anything")),
        Ok(record("corky-alpha", Scope::User))
    );
}

#[test]
fn custom_without_a_match_is_not_found() {
    let dir = vec![record("corky-alpha", Scope::User)];
    assert_eq!(
        resolve(&custom("beta"), &dir, &PromptReply::Cancelled),
        Err(ResolveError::NotFound)
    );
    assert_eq!(
        resolve(&custom("Alpha"), &dir, &PromptReply::Cancelled),
        Err(ResolveError::NotFound)
    );
}

#[test]
fn custom_with_the_same_name_in_both_scopes_is_ambiguous() {
    let dir = vec![record("corky-alpha", Scope::User), record("corky-alpha", Scope::System)];
    assert_eq!(
        resolve(&custom("alpha"), &dir, &chosen("alpha (user)")),
        Err(ResolveError::AmbiguousSelection)
    );
}

#[test]
fn custom_name_that_carries_the_prefix_is_not_prefixed_again() {
    let dir = vec![record("corky-corky-a", Scope::User)];
    assert_eq!(
        resolve(&custom("corky-a"), &dir, &PromptReply::Cancelled),
        Err(ResolveError::NotFound)
    );
    assert_eq!(
        resolve(&custom("corky-corky-a"), &dir, &PromptReply::Cancelled),
        Ok(record("corky-corky-a", Scope::User))
    );
}

#[test]
fn all_always_fails() {
    let one = vec![record("corky-alpha", Scope::User)];
    let two = vec![record("corky-alpha", Scope::User), record("corky-beta", Scope::System)];
    for dir in [&one, &two] {
        for reply in [PromptReply::Cancelled, chosen("alpha (user)")] {
            assert_eq!(
                resolve(&Some(ServiceSelector::All), dir, &reply),
                Err(ResolveError::BulkUnsupported)
            );
        }
    }
}

#[test]
fn auto_on_two_records_is_ambiguous() {
    let dir = vec![record("corky-a", Scope::User), record("corky-b", Scope::User)];
    assert_eq!(
        resolve(&Some(ServiceSelector::Auto), &dir, &chosen("a (user)")),
        Err(ResolveError::AmbiguousSelection)
    );
}

#[test]
fn auto_on_one_record_returns_it() {
    let dir = vec![record("corky-a", Scope::System)];
    assert_eq!(
        resolve(&Some(ServiceSelector::Auto), &dir, &PromptReply::Cancelled),
        Ok(record("corky-a", Scope::System))
    );
}

#[test]
fn empty_directory_fails_for_every_selector() {
    let dir: Vec<ServiceRecord> = Vec::new();
    for selector in [
        None,
        Some(ServiceSelector::Auto),
        Some(ServiceSelector::All),
        Some(ServiceSelector::Interactive),
        custom("alpha"),
    ] {
        assert_eq!(
            resolve(&selector, &dir, &chosen("alpha (user)")),
            Err(ResolveError::NoServicesFound)
        );
        assert_eq!(
            plan_resolution(&selector, &dir),
            Resolution::Failed(ResolveError::NoServicesFound)
        );
    }
}

#[test]
fn no_selector_on_one_record_returns_it_without_asking() {
    let dir = vec![record("corky-alpha", Scope::User)];
    assert_eq!(plan_resolution(&None, &dir), Resolution::Found(record("corky-alpha", Scope::User)));
    assert_eq!(
        resolve(&None, &dir, &PromptReply::Cancelled),
        Ok(record("corky-alpha", Scope::User))
    );
}

#[test]
fn no_selector_on_several_records_asks() {
    let dir = vec![record("corky-alpha", Scope::User), record("corky-beta", Scope::System)];
    assert_eq!(
        plan_resolution(&None, &dir),
        Resolution::Prompt(vec!["alpha (user)".to_string(), "beta (system)".to_string()])
    );
    assert_eq!(
        resolve(&None, &dir, &chosen("beta (system)")),
        Ok(record("corky-beta", Scope::System))
    );
    assert_eq!(resolve(&None, &dir, &PromptReply::Cancelled), Err(ResolveError::SelectionCancelled));
}

#[test]
fn interactive_asks_even_for_one_record() {
    let dir = vec![record("corky-alpha", Scope::User)];
    assert_eq!(
        plan_resolution(&Some(ServiceSelector::Interactive), &dir),
        Resolution::Prompt(vec!["alpha (user)".to_string()])
    );
    assert_eq!(
        resolve(&Some(ServiceSelector::Interactive), &dir, &chosen("alpha (user)")),
        Ok(record("corky-alpha", Scope::User))
    );
    assert_eq!(
        resolve(&Some(ServiceSelector::Interactive), &dir, &PromptReply::Cancelled),
        Err(ResolveError::SelectionCancelled)
    );
}

#[test]
fn interactive_choice_tells_scopes_apart() {
    let dir = vec![record("corky-alpha", Scope::User), record("corky-alpha", Scope::System)];
    assert_eq!(
        conclude_selection(&dir, &chosen("alpha (system)")),
        Ok(record("corky-alpha", Scope::System))
    );
    assert_eq!(
        conclude_selection(&dir, &chosen("alpha (user)")),
        Ok(record("corky-alpha", Scope::User))
    );
}

#[test]
fn a_label_that_no_record_has_picks_nothing() {
    let dir = vec![record("corky-alpha", Scope::User)];
    assert_eq!(conclude_selection(&dir, &chosen("alpha")), Err(ResolveError::NotFound));
    assert_eq!(conclude_selection(&dir, &chosen("alpha (system)")), Err(ResolveError::NotFound));
}

#[test]
fn the_first_record_with_the_label_is_picked() {
    let dir = vec![
        record("corky-beta", Scope::User),
        record("corky-alpha", Scope::User),
        record("alpha", Scope::User),
    ];
    assert_eq!(
        conclude_selection(&dir, &chosen("alpha (user)")),
        Ok(record("corky-alpha", Scope::User))
    );
}

#[test]
fn labels_strip_the_prefix_and_name_the_scope() {
    assert_eq!(label(&record("corky-alpha", Scope::User)), "alpha (user)");
    assert_eq!(label(&record("corky-corky-x", Scope::System)), "corky-x (system)");
    assert_eq!(label(&record("plain", Scope::System)), "plain (system)");
    let dir = vec![record("corky-a", Scope::User), record("corky-b", Scope::System)];
    assert_eq!(labels(&dir), vec!["a (user)".to_string(), "b (system)".to_string()]);
}

#[test]
fn end_to_end_single_user_service_needs_no_elevation() {
    let dir = list_corky_services(Some("corky-alpha.service enabled enabled\n"), Some(""));
    assert_eq!(dir, vec![record("corky-alpha", Scope::User)]);
    let found = resolve(&None, &dir, &PromptReply::Cancelled).unwrap();
    assert_eq!(found, record("corky-alpha", Scope::User));
    assert!(!requires_elevation(Operation::Service(Verb::Status, found.scope)));
    for is_root in [false, true] {
        for guard in [false, true] {
            assert_eq!(
                dispatch(Verb::Status, &found, is_root, guard),
                Dispatch::Run(vec![
                    "systemctl".to_string(),
                    "--user".to_string(),
                    "status".to_string(),
                    "corky-alpha.service".to_string(),
                ])
            );
        }
    }
}
