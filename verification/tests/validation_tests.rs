use opencode_forger::config::Config;
use opencode_forger::validation::{
    bool_icon, classify_tag, print_diff, strip_xml_comments, validate_spec, validate_spec_with_config,
    ValidationRules,
};

#[test]
fn test_validate_structured_features() {
    let spec = r#"
<project_specification>
<project_name>Structured</project_name>
<overview>A test with structured features</overview>
<core_features>
<feature>
  <name>Feature 1</name>
</feature>
<feature>
  <name>Feature 2</name>
</feature>
<feature>
  <name>Feature 3</name>
</feature>
</core_features>
</project_specification>
"#;
    let result = validate_spec(spec).unwrap();
    assert!(result.is_valid);
    assert_eq!(result.stats.feature_count, 3);
}

#[test]
fn test_validate_good_spec() {
    let spec = r#"
<project_specification>
<project_name>Test Project</project_name>
<overview>A test project for validation</overview>
<technology_stack>
<frontend>React</frontend>
</technology_stack>
<core_features>
<feature1>Feature one</feature1>
<feature2>Feature two</feature2>
<feature3>Feature three</feature3>
</core_features>
<success_criteria>
- It works
</success_criteria>
</project_specification>
"#;
    let result = validate_spec(spec).unwrap();
    assert!(result.is_valid);
    assert!(result.stats.has_project_name);
    assert!(result.stats.has_overview);
    assert!(result.stats.feature_count >= 3);
}

#[test]
fn test_validate_minimal_spec() {
    let spec = r#"
<project_specification>
<project_name>Minimal</project_name>
<overview>Just the basics</overview>
</project_specification>
"#;
    let result = validate_spec(spec).unwrap();
    assert!(result.is_valid);
    assert!(!result.warnings.is_empty());
}

#[test]
fn test_validate_broken_spec() {
    let spec = "This is not XML at all";
    let result = validate_spec(spec).unwrap();
    assert!(!result.is_valid);
    assert!(!result.errors.is_empty());
}

#[test]
fn broken_spec_reports_every_missing_part() {
    let result = validate_spec("This is not XML at all").unwrap();
    assert_eq!(
        result.errors,
        vec![
            "Missing <project_specification> root element".to_string(),
            "Missing </project_specification> closing tag".to_string(),
            "Missing <project_name> element".to_string(),
            "Missing <overview> element".to_string(),
        ]
    );
    assert_eq!(
        result.warnings,
        vec![
            "Spec has no features or tech stack defined".to_string(),
            "Missing success criteria - how will you know when it's done?".to_string(),
        ]
    );
}

#[test]
fn parse_error_is_reported_with_position() {
    let result = validate_spec("<project_specification><project_name>x</wrong></project_specification>").unwrap();
    assert!(!result.is_valid);
    assert!(result.errors.iter().any(|e| e.starts_with("XML parsing error at position ")));
}

#[test]
fn commented_root_does_not_count() {
    let spec = "<!-- <project_specification> --><project_name>a</project_name><overview>b</overview>";
    let result = validate_spec(spec).unwrap();
    assert_eq!(result.errors[0], "Missing <project_specification> root element");
}

#[test]
fn comments_are_stripped() {
    assert_eq!(strip_xml_comments("<root><!-- bad --><item/></root>"), "<root><item/></root>");
    assert_eq!(strip_xml_comments("a<!-- never closed"), "a");
    assert_eq!(strip_xml_comments("<a<!--x-->"), "<a");
    assert_eq!(strip_xml_comments("<<!--x-->b<!--y-->c"), "<bc");
    assert_eq!(strip_xml_comments("no comments <tag>"), "no comments <tag>");
    assert_eq!(strip_xml_comments("x <a"), "x <a");
}

#[test]
fn endpoints_tables_and_steps_are_counted() {
    let spec = r#"<project_specification>
<project_name>N</project_name>
<overview>O</overview>
<api_endpoints_summary>
- GET /users
- POST /users
- not an endpoint
- METHOD something
</api_endpoints_summary>
<database_schema>
<tables>
- users
- posts
</tables>
</database_schema>
<implementation_steps>
<step>One</step>
<step>Two</step>
</implementation_steps>
</project_specification>"#;
    let r = validate_spec(spec).unwrap();
    assert_eq!(r.stats.endpoint_count, 3);
    assert_eq!(r.stats.database_table_count, 2);
    assert_eq!(r.stats.implementation_step_count, 2);
    assert!(r.stats.has_database);
    assert!(r.stats.has_api_endpoints);
}

#[test]
fn config_rules_add_errors() {
    let spec = "<project_specification><project_name>N</project_name><overview>O</overview></project_specification>";
    let config = Config::default();
    let with = validate_spec_with_config(spec, &config).unwrap();
    let without = validate_spec(spec).unwrap();
    assert!(without.is_valid);
    assert!(!with.is_valid);
    assert_eq!(with.errors[0], "Spec has 0 feature(s), requires at least 15");
    assert!(with.errors.contains(&"Missing <security> section in spec".to_string()));
    assert!(with.errors.contains(&"Missing <testing_strategy> section in spec".to_string()));
    assert_eq!(with.stats, without.stats);
}

#[test]
fn rules_from_default_config() {
    let rules = ValidationRules::from_config(&Config::default());
    assert_eq!(rules.requirements.min_features, 15);
    assert_eq!(rules.requirements.min_database_tables, 5);
    assert!(rules.include_security_section);
    assert!(!rules.include_devops_section);
}

#[test]
fn tag_kinds() {
    assert_eq!(classify_tag("project_name"), 0);
    assert_eq!(classify_tag("api_endpoints_summary"), 6);
    assert_eq!(classify_tag("column"), 18);
    assert_eq!(classify_tag("anything"), 19);
    assert_eq!(bool_icon(true), "✓");
    assert_eq!(bool_icon(false), "✗");
}

#[test]
fn report_lines_describe_result() {
    let result = validate_spec("This is not XML at all").unwrap();
    let lines = result.report_lines();
    assert_eq!(lines[0], "❌ Spec validation failed");
    assert_eq!(lines[1], "\nErrors:");
    assert_eq!(lines[2], "   ❌ Missing <project_specification> root element");
    assert!(lines.contains(&"   Features: ✗ (0)".to_string()));
    assert_eq!(lines.last().unwrap(), "   Success Criteria: ✗");
}

#[test]
fn diff_shows_changed_lines() {
    let shown = print_diff("a\nb\nc\n", "a\nx\nc\n");
    assert_eq!(shown, "\n─── Changes ───\n-b\n+x\n");
    let none = print_diff("same\n", "same\n");
    assert_eq!(none, "\n─── Changes ───\n   (no changes)\n");
}
