use corky::directory::{list_corky_services, parse_corky_service, scope_name, Scope, ServiceRecord};

fn record(name: &str, scope: Scope) -> ServiceRecord {
    ServiceRecord { name: name.to_string(), scope }
}

#[test]
fn parses_a_unit_line() {
    let got = parse_corky_service("corky-alpha.service enabled enabled", Scope::User);
    assert_eq!(got, Some(record("corky-alpha", Scope::User)));
}

#[test]
fn parses_a_line_with_leading_space_and_tabs() {
    let got = parse_corky_service("  \tcorky-beta.service\tdisabled", Scope::System);
    assert_eq!(got, Some(record("corky-beta", Scope::System)));
}

#[test]
fn rejects_a_line_of_another_family() {
    assert_eq!(parse_corky_service("sshd.service enabled", Scope::System), None);
}

#[test]
fn rejects_a_unit_that_is_no_service() {
    assert_eq!(parse_corky_service("corky-alpha.timer enabled", Scope::User), None);
}

#[test]
fn rejects_an_empty_line() {
    assert_eq!(parse_corky_service("", Scope::User), None);
    assert_eq!(parse_corky_service("   \t ", Scope::User), None);
}

#[test]
fn strips_every_trailing_unit_suffix() {
    let got = parse_corky_service("corky-a.service.service static", Scope::User);
    assert_eq!(got, Some(record("corky-a", Scope::User)));
}

#[test]
fn keeps_the_bare_prefix() {
    let got = parse_corky_service("corky-.service", Scope::User);
    assert_eq!(got, Some(record("corky-", Scope::User)));
}

#[test]
fn only_the_first_word_counts() {
    assert_eq!(parse_corky_service("enabled corky-alpha.service", Scope::User), None);
}

#[test]
fn lists_user_scope_before_system_scope() {
    let user = "corky-alpha.service enabled\ncorky-beta.service disabled\n";
    let system = "corky-gamma.service enabled\n";
    let got = list_corky_services(Some(user), Some(system));
    assert_eq!(
        got,
        vec![
            record("corky-alpha", Scope::User),
            record("corky-beta", Scope::User),
            record("corky-gamma", Scope::System),
        ]
    );
}

#[test]
fn a_failed_query_counts_as_empty() {
    let system = "corky-gamma.service enabled\n";
    assert_eq!(
        list_corky_services(None, Some(system)),
        vec![record("corky-gamma", Scope::System)]
    );
    assert_eq!(
        list_corky_services(Some("corky-a.service x"), None),
        vec![record("corky-a", Scope::User)]
    );
    assert_eq!(list_corky_services(None, None), vec![]);
}

#[test]
fn duplicates_across_scopes_are_kept() {
    let text = "corky-alpha.service enabled\n";
    let got = list_corky_services(Some(text), Some(text));
    assert_eq!(
        got,
        vec![record("corky-alpha", Scope::User), record("corky-alpha", Scope::System)]
    );
}

#[test]
fn lines_that_name_no_unit_are_skipped() {
    let text = "\ncorky-alpha.service enabled\r\n\n1 unit files listed.\n";
    let got = list_corky_services(Some(text), None);
    assert_eq!(got, vec![record("corky-alpha", Scope::User)]);
}

#[test]
fn scopes_have_names() {
    assert_eq!(scope_name(Scope::User), "user");
    assert_eq!(scope_name(Scope::System), "system");
}

#[test]
fn every_listed_name_carries_the_prefix() {
    let text = "corky-a.service x\ncorky-b.service.service y\nother.service z\ncorky-.service";
    for r in list_corky_services(Some(text), Some(text)) {
        assert!(r.name.starts_with("corky-"));
    }
}
