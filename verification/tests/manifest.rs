use corky::manifest::{
    extract_toml_str_value, installation_target, is_corky_package, pkg_name_and_description,
    target_from, InstallationTarget,
};

const MANIFEST: &str = "[package]\nname = \"corky-alpha\"\nversion = \"0.1.0\"\ndescription = \"Alpha service\"\n\n[dependencies]\nname = \"not-this\"\n\n[corky]\nis_corky_package = true\n";

#[test]
fn marker_is_recognised() {
    assert!(is_corky_package(MANIFEST));
    assert!(is_corky_package("[corky]\nis_corky_package = true"));
}

#[test]
fn marker_needs_table_and_flag() {
    assert!(!is_corky_package(""));
    assert!(!is_corky_package("[package]\nname = \"x\"\n"));
    assert!(!is_corky_package("[corky]\nis_corky_package = false\n"));
    assert!(!is_corky_package("is_corky_package = true\n"));
    assert!(!is_corky_package("[corky]\nis_corky_package=true\n"));
    assert!(!is_corky_package("[corky]\n"));
}

#[test]
fn quoted_values_are_extracted() {
    assert_eq!(extract_toml_str_value("name = \"corky-alpha\""), Some("corky-alpha".to_string()));
    assert_eq!(extract_toml_str_value("name=\"x\""), Some("x".to_string()));
    assert_eq!(extract_toml_str_value("name =   \"x y\"  "), Some("x y".to_string()));
    assert_eq!(extract_toml_str_value("name = \"\""), Some(String::new()));
    assert_eq!(extract_toml_str_value("k = \"a = b\""), Some("a = b".to_string()));
    assert_eq!(extract_toml_str_value("k = \"a\" # \"b\""), Some("a\" # \"b".to_string()));
    assert_eq!(extract_toml_str_value("k = \"é\""), Some("é".to_string()));
}

#[test]
fn values_without_quotes_are_refused() {
    assert_eq!(extract_toml_str_value("name"), None);
    assert_eq!(extract_toml_str_value("name = x"), None);
    assert_eq!(extract_toml_str_value("name = \""), None);
    assert_eq!(extract_toml_str_value("name = \"x"), None);
    assert_eq!(extract_toml_str_value("name = x\""), None);
    assert_eq!(extract_toml_str_value("name = "), None);
    assert_eq!(extract_toml_str_value("name = 'x'"), None);
    assert_eq!(extract_toml_str_value(""), None);
}

#[test]
fn name_and_description_come_from_the_package_section() {
    assert_eq!(
        pkg_name_and_description(MANIFEST),
        ("corky-alpha".to_string(), "Alpha service".to_string())
    );
}

#[test]
fn missing_values_fall_back() {
    assert_eq!(
        pkg_name_and_description(""),
        ("corky".to_string(), "corky service".to_string())
    );
    assert_eq!(
        pkg_name_and_description("[package]\nname = \"x\"\n"),
        ("x".to_string(), "corky service".to_string())
    );
    assert_eq!(
        pkg_name_and_description("[package]\ndescription = \"d\"\n"),
        ("corky".to_string(), "d".to_string())
    );
}

#[test]
fn values_outside_the_package_section_do_not_count() {
    assert_eq!(
        pkg_name_and_description("name = \"early\"\n[package]\nversion = \"1\"\n[other]\nname = \"late\"\n"),
        ("corky".to_string(), "corky service".to_string())
    );
    assert_eq!(
        pkg_name_and_description("[dependencies]\nname = \"dep\"\n[package]\nname = \"pkg\"\n"),
        ("pkg".to_string(), "corky service".to_string())
    );
}

#[test]
fn the_first_quoted_value_counts() {
    assert_eq!(
        pkg_name_and_description("[package]\nname = unquoted\nname = \"second\"\nname = \"third\"\n"),
        ("second".to_string(), "corky service".to_string())
    );
}

#[test]
fn lines_are_trimmed_and_carriage_returns_ignored() {
    assert_eq!(
        pkg_name_and_description("  [package]  \r\n\tname = \"x\"\r\n  description = \"d\"  \r\n"),
        ("x".to_string(), "d".to_string())
    );
}

#[test]
fn a_repeated_package_header_does_not_end_the_section() {
    assert_eq!(
        pkg_name_and_description("[package]\n[package]\nname = \"x\"\n"),
        ("x".to_string(), "corky service".to_string())
    );
}

#[test]
fn keys_match_by_prefix() {
    assert_eq!(
        pkg_name_and_description("[package]\nnamespace = \"ns\"\nname = \"x\"\n"),
        ("ns".to_string(), "corky service".to_string())
    );
}

#[test]
fn target_of_a_prefixed_package() {
    assert_eq!(
        target_from("corky-alpha", "Alpha service"),
        InstallationTarget {
            package: "corky-alpha".to_string(),
            description: "Alpha service".to_string(),
            service: "corky-alpha".to_string(),
            source_binary: "target/release/corky-alpha".to_string(),
            installed_binary: "/usr/local/bin/corky-alpha".to_string(),
            unit_path: "/etc/systemd/system/corky-alpha.service".to_string(),
        }
    );
}

#[test]
fn target_of_a_bare_package_gets_the_prefix_for_the_service_only() {
    assert_eq!(
        target_from("alpha", "d"),
        InstallationTarget {
            package: "alpha".to_string(),
            description: "d".to_string(),
            service: "corky-alpha".to_string(),
            source_binary: "target/release/alpha".to_string(),
            installed_binary: "/usr/local/bin/alpha".to_string(),
            unit_path: "/etc/systemd/system/corky-alpha.service".to_string(),
        }
    );
}

#[test]
fn target_from_a_manifest_and_from_none() {
    assert_eq!(installation_target(Some(MANIFEST)), target_from("corky-alpha", "Alpha service"));
    assert_eq!(installation_target(None), target_from("corky", "corky service"));
    let fallback = installation_target(None);
    assert_eq!(fallback.service, "corky-corky");
    assert_eq!(fallback.installed_binary, "/usr/local/bin/corky");
}
