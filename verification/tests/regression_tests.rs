use opencode_forger::db::models::Feature;
use opencode_forger::regression::{
    features_to_check, report_results, run_regression_check, CommandOutcome, RegressionSummary,
};

fn create_test_features() -> Vec<Feature> {
    vec![
        Feature {
            id: Some(1),
            category: "functional".to_string(),
            description: "Test feature 1".to_string(),
            steps: vec!["Step 1".to_string(), "Step 2".to_string()],
            passes: true,
            verification_command: Some("echo test".to_string()),
            last_error: None,
        },
        Feature {
            id: Some(2),
            category: "functional".to_string(),
            description: "Test feature 2".to_string(),
            steps: vec!["Step 1".to_string()],
            passes: false,
            verification_command: None,
            last_error: None,
        },
    ]
}

#[test]
fn test_run_regression_check() {
    let features = create_test_features();
    // `echo test` is allowed and succeeds; the second feature is not checked.
    let outcomes = vec![Some(CommandOutcome::Finished { success: true, stderr: String::new() }), None];
    let summary = run_regression_check(&features, None, &outcomes);

    assert_eq!(summary.total_features, 2);
    assert_eq!(summary.passing_features, 1);
    assert_eq!(summary.automated_passed, 1);
    assert_eq!(summary.automated_failed, 0);
}

#[test]
fn category_filter_ignores_case() {
    let features = create_test_features();
    let list = features.to_vec();
    assert_eq!(features_to_check(&list, Some("FUNCTIONAL")), vec![0]);
    assert!(features_to_check(&list, Some("style")).is_empty());
}

#[test]
fn report_lists_regressions() {
    let mut summary = RegressionSummary::start(3, 2);
    summary.record_outcome("Login", false, "assertion failed\nsecond line");
    summary.record_blocked("Deploy", "rm not allowed");
    let lines = report_results(&summary);
    assert!(lines.contains(&"❌ REGRESSIONS DETECTED:".to_string()));
    assert!(lines.contains(&"  • Login".to_string()));
    assert!(lines.contains(&"    └─ assertion failed".to_string()));
    assert!(lines.contains(&"    └─ Security blocked: rm not allowed".to_string()));
    assert!(lines.contains(&"  ✗ Failed:           2".to_string()));
}

#[test]
fn report_all_clear_with_manual_reminder() {
    let mut summary = RegressionSummary::start(1, 1);
    summary.record_manual("Looks right");
    let lines = report_results(&summary);
    assert!(lines.contains(&"✅ All automated regression tests passed!".to_string()));
    assert!(lines.contains(&"   Reminder: 1 features require manual verification.".to_string()));
}

#[test]
fn blocked_and_failed_commands_are_regressions() {
    let mut features = create_test_features();
    features[1].passes = true;
    features[1].verification_command = Some("rm -rf /".to_string());
    features.push(Feature {
        id: Some(3),
        category: "style".to_string(),
        description: "Manual feature".to_string(),
        steps: vec![],
        passes: true,
        verification_command: None,
        last_error: None,
    });
    let outcomes = vec![
        Some(CommandOutcome::Finished { success: false, stderr: "boom\nmore".to_string() }),
        Some(CommandOutcome::Blocked("rm is not allowed".to_string())),
        None,
    ];
    let summary = run_regression_check(&features, None, &outcomes);
    assert_eq!(summary.passing_features, 3);
    assert_eq!(summary.automated_passed, 0);
    assert_eq!(summary.automated_failed, 2);
    assert_eq!(summary.manual_required, 1);
    assert_eq!(summary.results[0].error_message.as_deref(), Some("boom\nmore"));
    assert_eq!(summary.results[1].error_message.as_deref(), Some("Security blocked: rm is not allowed"));
    assert!(summary.results[2].passed && !summary.results[2].was_automated);

    let only_style = run_regression_check(&features, Some("STYLE"), &outcomes);
    assert_eq!(only_style.passing_features, 1);
    assert_eq!(only_style.manual_required, 1);
}
