use juky4::kernel::classifier::{classify_package_json, project_type_str, ProjectType};
use juky4::text::{chars_of, str_contains};

#[test]
fn classifies_next_js_repo() {
    assert_eq!(
        classify_package_json(r#"{"dependencies":{"next":"14.0.0"}}"#),
        ProjectType::NextJs
    );
}

#[test]
fn classifies_cra_repo() {
    assert_eq!(
        classify_package_json(r#"{"dependencies":{"react-scripts":"5.0.1"}}"#),
        ProjectType::CreateReactApp
    );
}

#[test]
fn classifies_pglite_repo() {
    assert_eq!(
        classify_package_json(r#"{"dependencies":{"pglite":"0.2.0"}}"#),
        ProjectType::PGLiteApp
    );
}

#[test]
fn classifies_electric_sql_repo_as_pglite() {
    assert_eq!(
        classify_package_json(r#"{"dependencies":{"@electric-sql/client":"1.0.0"}}"#),
        ProjectType::PGLiteApp
    );
}

#[test]
fn missing_or_plain_package_json_is_unknown() {
    assert_eq!(classify_package_json(""), ProjectType::Unknown);
    assert_eq!(
        classify_package_json(r#"{"dependencies":{"express":"4.0.0"}}"#),
        ProjectType::Unknown
    );
}

#[test]
fn next_takes_precedence_over_other_markers() {
    let both = r#"{"dependencies":{"react-scripts":"5.0.1","next":"14.0.0","pglite":"0.2.0"}}"#;
    assert_eq!(classify_package_json(both), ProjectType::NextJs);
    let cra_and_pglite = r#"{"dependencies":{"@electric-sql/pglite":"0.2.0","react-scripts":"5"}}"#;
    assert_eq!(classify_package_json(cra_and_pglite), ProjectType::CreateReactApp);
}

#[test]
fn next_marker_needs_its_quotes() {
    assert_eq!(
        classify_package_json(r#"{"dependencies":{"nextra":"2.0.0"}}"#),
        ProjectType::Unknown
    );
}

#[test]
fn project_type_names_match_their_variants() {
    assert_eq!(project_type_str(ProjectType::CreateReactApp), "CreateReactApp");
    assert_eq!(project_type_str(ProjectType::NextJs), "NextJs");
    assert_eq!(project_type_str(ProjectType::PGLiteApp), "PGLiteApp");
    assert_eq!(project_type_str(ProjectType::Unknown), "Unknown");
}

#[test]
fn substring_search_edges() {
    assert!(str_contains("abc", ""));
    assert!(str_contains("", ""));
    assert!(!str_contains("", "a"));
    assert!(str_contains("abc", "abc"));
    assert!(str_contains("abc", "c"));
    assert!(!str_contains("ab", "abc"));
    assert!(str_contains("ééx", "éx"));
    assert!(!str_contains("aab", "aba"));
}

#[test]
fn chars_of_keeps_every_character() {
    assert_eq!(chars_of("añb"), vec!['a', 'ñ', 'b']);
    assert!(chars_of("").is_empty());
}
