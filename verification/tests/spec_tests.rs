use opencode_forger::spec::{ApiEndpoint, AppSpec, DatabaseConfig, Feature, Priority, TechStack};

#[test]
fn test_spec_to_text() {
    let spec = AppSpec {
        project_name: "Test Project".to_string(),
        overview: "A test project".to_string(),
        features: vec![Feature {
            name: "Feature 1".to_string(),
            description: "A feature".to_string(),
            priority: Priority::High,
            sub_features: vec!["Sub 1".to_string()],
        }],
        success_criteria: vec!["Works correctly".to_string()],
        technology: Some(TechStack {
            languages: vec!["Rust".to_string()],
            frameworks: vec!["Ratatui".to_string()],
            tools: vec![],
        }),
        database: None,
        api_endpoints: None,
    };

    let text = spec.to_spec_text();
    assert!(text.contains("<project_name>Test Project</project_name>"));
    assert!(text.contains("Feature 1"));
}

#[test]
fn spec_text_exact_layout() {
    let spec = AppSpec {
        project_name: "P".to_string(),
        overview: "O".to_string(),
        features: vec![Feature {
            name: "F".to_string(),
            description: "D".to_string(),
            priority: Priority::Critical,
            sub_features: vec![],
        }],
        success_criteria: vec!["C1".to_string(), "C2".to_string()],
        technology: Some(TechStack { languages: vec!["Rust".to_string(), "Go".to_string()], frameworks: vec![], tools: vec!["make".to_string()] }),
        database: Some(DatabaseConfig { db_type: "SQLite".to_string(), tables: vec!["users".to_string()] }),
        api_endpoints: Some(vec![ApiEndpoint {
            method: "GET".to_string(),
            path: "/x".to_string(),
            description: "get x".to_string(),
        }]),
    };
    let expected = "<project_specification>\n  <project_name>P</project_name>\n\n  <overview>\n    O\n  </overview>\n\n  <technology_stack>\n    <languages>Rust, Go</languages>\n    <tools>make</tools>\n  </technology_stack>\n\n  <core_features>\n    <feature priority=\"critical\">\n      <name>F</name>\n      <description>D</description>\n    </feature>\n  </core_features>\n\n  <database>\n    <type>SQLite</type>\n    <tables>\n      - users\n    </tables>\n  </database>\n\n  <api_endpoints>\n    <endpoint>\n      <method>GET</method>\n      <path>/x</path>\n      <description>get x</description>\n    </endpoint>\n  </api_endpoints>\n\n  <success_criteria>\n    - C1\n    - C2\n  </success_criteria>\n</project_specification>\n";
    assert_eq!(spec.to_spec_text(), expected);
}

#[test]
fn new_spec_is_empty() {
    let spec = AppSpec::new("Named");
    assert_eq!(spec.project_name, "Named");
    assert!(spec.overview.is_empty());
    assert!(spec.features.is_empty());
    assert!(spec.technology.is_none());
    assert!(spec.to_spec_text().contains("<core_features>\n  </core_features>"));
}

#[test]
fn priority_names() {
    assert_eq!(Priority::Critical.as_str(), "critical");
    assert_eq!(Priority::High.as_str(), "high");
    assert_eq!(Priority::Medium.as_str(), "medium");
    assert_eq!(Priority::Low.as_str(), "low");
    assert_eq!(Priority::default(), Priority::Medium);
}
