use opencode_forger::config::Config;
use opencode_forger::services::generator::executor::{
    is_progress_line, refine_notices, refine_outcome, retry_notice, GenerationRun, GenerationStep,
};
use opencode_forger::services::generator::parser::extract_spec_from_output;
use opencode_forger::services::generator::prompts::{
    build_fix_prompt, build_generation_prompt, build_refine_prompt, build_subagent_prompt,
};

const SPEC_OUTPUT: &str = r#"
Some preamble text...

<project_specification>
<project_name>Test Project</project_name>
<overview>A test</overview>
</project_specification>

Some trailing text...
"#;

#[test]
fn generator_test_build_generation_prompt() {
    let idea = "A todo app with tags";
    let config = Config::default();
    let prompt = build_generation_prompt(idea, None, &config);

    assert!(prompt.contains("A todo app with tags"));
    assert!(prompt.contains("<project_specification>"));
    assert!(!prompt.contains("{{IDEA}}"));
}

#[test]
fn generator_test_build_generation_prompt_contains_constraints() {
    let idea = "A complex ERP";
    let config = Config::default();
    let prompt = build_generation_prompt(idea, None, &config);

    assert!(prompt.contains("production-ready specification with deep detail"));
}

#[test]
fn generator_test_extract_spec_from_output() {
    let spec = extract_spec_from_output(SPEC_OUTPUT).unwrap();
    assert!(spec.starts_with("<project_specification>"));
    assert!(spec.ends_with("</project_specification>"));
    assert!(spec.contains("Test Project"));
}

#[test]
fn generator_test_extract_spec_no_match() {
    let output = "This is just random text without any spec";
    let result = extract_spec_from_output(output);
    assert!(result.is_err());
}

#[test]
fn parser_test_extract_spec_from_output() {
    let spec = extract_spec_from_output(SPEC_OUTPUT).unwrap();
    assert!(spec.starts_with("<project_specification>"));
    assert!(spec.ends_with("</project_specification>"));
    assert!(spec.contains("Test Project"));
}

#[test]
fn parser_test_extract_spec_no_match() {
    let output = "This is just random text without any spec";
    let result = extract_spec_from_output(output);
    assert!(result.is_err());
}

#[test]
fn prompts_test_build_generation_prompt() {
    let idea = "A todo app with tags";
    let config = Config::default();
    let prompt = build_generation_prompt(idea, None, &config);

    assert!(prompt.contains("A todo app with tags"));
    assert!(prompt.contains("<project_specification>"));
    assert!(!prompt.contains("{{IDEA}}"));
}

#[test]
fn prompts_test_build_generation_prompt_contains_constraints() {
    let idea = "A complex ERP";
    let config = Config::default();
    let prompt = build_generation_prompt(idea, None, &config);

    assert!(prompt.contains("production-ready specification with deep detail"));
}

#[test]
fn generation_prompt_for_minimal_projects() {
    let mut config = Config::default();
    config.generation.complexity = "minimal".to_string();
    let prompt = build_generation_prompt("A notes app", None, &config);
    assert!(prompt.contains("minimal, lightweight implementation"));
    assert!(prompt.contains("- Minimum features: 5\n- Minimum database tables: 2"));
    assert!(!prompt.contains("production-ready"));
}

#[test]
fn generation_prompt_lists_requirements_before_output_format() {
    let config = Config::default();
    let prompt = build_generation_prompt("Idea", None, &config);
    let req = prompt.find("## Minimum Scope Requirements").unwrap();
    let fmt = prompt.find("## Output Format").unwrap();
    assert!(req < fmt);
    assert!(prompt.contains("- Minimum features: 15\n- Minimum database tables: 5\n- Minimum API endpoints: 15\n- Minimum implementation steps: 6"));
}

#[test]
fn generation_prompt_testing_preference() {
    let config = Config::default();
    let with = build_generation_prompt("Idea", Some("pytest"), &config);
    assert!(with.contains("\n## User Preferences\n\nTesting & QA Framework Preference: pytest\n"));
    let blank = build_generation_prompt("Idea", Some("   "), &config);
    assert!(!blank.contains("User Preferences"));
    assert!(!blank.contains("{{TESTING_PREFERENCE}}"));
}

#[test]
fn generation_prompt_sections_follow_settings() {
    let config = Config::default();
    let prompt = build_generation_prompt("Idea", None, &config);
    assert!(prompt.contains("<security>Security requirements and measures</security>"));
    assert!(prompt.contains("<testing_strategy>\n  <unit_tests>"));
    assert!(!prompt.contains("<devops>"));
    assert!(!prompt.contains("{{DEVOPS_SECTION}}"));
    let mut all = Config::default();
    all.generation.include_devops_section = true;
    all.generation.include_accessibility = true;
    all.generation.include_future_enhancements = true;
    let full = build_generation_prompt("Idea", None, &all);
    assert!(full.contains("<devops>Deployment and operations plan</devops>"));
    assert!(full.contains("<accessibility>Accessibility requirements and testing</accessibility>"));
    assert!(full.contains("<future_enhancements>Potential post-launch features</future_enhancements>"));
}

#[test]
fn subagent_prompt_fills_every_placeholder() {
    let config = Config::default();
    let prompt = build_subagent_prompt("A chess club site", Some("Vitest"), &config);
    assert!(!prompt.contains("{{"));
    assert!(prompt.contains("A chess club site"));
    assert!(prompt.contains("QA/Testing framework should be: Vitest"));
    assert!(prompt.contains("Generate implementation steps, success criteria, security, testing strategy for: A chess club site"));
    assert!(prompt.contains("IMPORTANT: Generate at least 15 features"));
    assert!(prompt.contains("Define at least 5 tables"));
    assert!(prompt.contains("Define at least 15 endpoints"));
    assert!(prompt.contains("at least 6 phases"));
    assert!(prompt.contains("  <security>Security requirements and measures</security>"));
    assert!(prompt.contains("[The blueprint you generated above]"));
}

#[test]
fn refine_prompt_inserts_spec_and_instructions() {
    let prompt = build_refine_prompt("<project_specification/>", "Add dark mode");
    assert!(prompt.contains("<project_specification/>"));
    assert!(prompt.contains("Add dark mode"));
    assert!(!prompt.contains("{{EXISTING_SPEC}}"));
    assert!(!prompt.contains("{{REFINEMENT}}"));
}

#[test]
fn fix_prompt_without_partial_output() {
    let prompt = build_fix_prompt("An idea", "Missing <overview> element", None);
    assert!(prompt.contains("An idea"));
    assert!(prompt.contains("Missing <overview> element"));
    assert!(!prompt.contains("Partial Output"));
    assert!(!prompt.contains("{{PARTIAL_OUTPUT}}"));
    let blank = build_fix_prompt("An idea", "e", Some("  \n "));
    assert!(!blank.contains("Partial Output"));
}

#[test]
fn fix_prompt_keeps_short_partial_output() {
    let prompt = build_fix_prompt("Idea", "Errors", Some("<project_specification>"));
    assert!(prompt.contains("\n## Partial Output (for context)\n\n```\n<project_specification>\n```\n"));
    assert!(!prompt.contains("(truncated)"));
}

#[test]
fn fix_prompt_truncates_long_partial_output() {
    let long = format!("{}{}", "a".repeat(5000), "b".repeat(10000));
    let prompt = build_fix_prompt("Idea", "Errors", Some(&long));
    assert!(prompt.contains(&format!("... (truncated) ...\n{}\n```", "b".repeat(10000))));
    assert!(!prompt.contains("ab"));
}

#[test]
fn progress_lines_are_recognized() {
    assert!(is_progress_line("Searching the web"));
    assert!(is_progress_line("Reading file"));
    assert!(is_progress_line("Tool call"));
    assert!(!is_progress_line("thinking"));
}

#[test]
fn generation_run_accepts_valid_output() {
    let config = Config::default();
    let mut run = GenerationRun::start("Idea", None, false, &config);
    assert_eq!(run.attempt, 0);
    assert_eq!(run.model("chosen", &config), "chosen");
    let output = "<project_specification><project_name>X</project_name><overview>Y</overview></project_specification>";
    match run.on_output(output, &Config::default()) {
        GenerationStep::Done(_) => panic!("default rules need more features"),
        GenerationStep::Retry => {}
        GenerationStep::Fail(m) => panic!("unexpected failure: {}", m),
    }
    assert_eq!(run.attempt, 1);
    assert!(run.last_error.contains("feature(s), requires at least 15"));
    assert!(run.prompt.contains("Partial Output"));
    let expected_notice = format!("   ⚠️  Validation error: {}\n", run.last_error);
    assert_eq!(run.notice.as_deref(), Some(expected_notice.as_str()));
    assert_eq!(run.model("chosen", &config), config.models.fixer.as_str());
}

#[test]
fn generation_run_gives_up_after_retries() {
    let config = Config::default();
    let mut run = GenerationRun::start("Idea", None, true, &config);
    for expected in 1..=5u32 {
        match run.on_output("no spec here", &config) {
            GenerationStep::Retry => assert_eq!(run.attempt, expected),
            _ => panic!("expected a retry"),
        }
        assert!(run.last_error.starts_with("Could not extract XML: "));
        assert!(run.prompt.contains("Could not locate <project_specification> block in output."));
        assert!(run.notice.is_none());
    }
    match run.on_output("no spec here", &config) {
        GenerationStep::Fail(m) => {
            assert!(m.starts_with("Failed to generate valid specification after 5 retries.\nLast error: Could not extract XML: "))
        }
        _ => panic!("expected failure"),
    }
}

#[test]
fn generation_run_process_failures() {
    let config = Config::default();
    let mut run = GenerationRun::start("Idea", None, false, &config);
    for _ in 0..5 {
        assert!(matches!(run.on_process_failure("boom"), GenerationStep::Retry));
    }
    match run.on_process_failure("boom") {
        GenerationStep::Fail(m) => assert_eq!(m, "OpenCode exited with error. Output:\nboom"),
        _ => panic!("expected failure"),
    }
    assert_eq!(run.last_error, "OpenCode CLI process failed");
    assert_eq!(run.notice.as_deref(), Some("   Warning: OpenCode CLI exited with error code.\n"));
}

#[test]
fn retry_notice_text() {
    assert_eq!(
        retry_notice("m/x", 2),
        "\n⚠️  Spec validation failed. Retrying with m/x (attempt 2/5)...\n"
    );
}

#[test]
fn refine_outcome_extracts_or_fails() {
    let spec = refine_outcome(true, SPEC_OUTPUT).unwrap();
    assert!(spec.starts_with("<project_specification>"));
    assert!(spec.ends_with("</project_specification>"));
    let err = refine_outcome(false, "crash").unwrap_err();
    assert_eq!(err.message, "OpenCode exited with error. Output:\ncrash");
    let missing = refine_outcome(true, "nothing here").unwrap_err();
    assert!(!missing.message.is_empty());
    let notices = refine_notices("m/x");
    assert_eq!(notices[0], "🔧 Refining specification with OpenCode (model: m/x)...\n");
}

#[test]
fn refine_prompt_keeps_the_current_spec_verbatim() {
    let prompt = build_refine_prompt("<x>{{REFINEMENT}}</x>", "R");
    assert!(prompt.contains("<x>{{REFINEMENT}}</x>"));
    assert!(prompt.contains("R"));
    assert!(!prompt.contains("{{EXISTING_SPEC}}"));
    let prompt = build_refine_prompt("S", "{{EXISTING_SPEC}} stays");
    assert!(prompt.contains("{{EXISTING_SPEC}} stays"));
}

#[test]
fn generation_prompt_guidance_survives_any_idea() {
    let mut config = Config::default();
    config.generation.complexity = "minimal".to_string();
    let idea = "An app {{COMPLEXITY_GUIDANCE}} {{SECURITY_SECTION}} {{IDEA}}";
    let prompt = build_generation_prompt(idea, Some("{{TESTING_PREFERENCE}}"), &config);
    assert!(prompt.contains(
        "The target is a minimal, lightweight implementation. Focus only on the absolute core."
    ));
    let config = Config::default();
    let prompt = build_generation_prompt(idea, None, &config);
    assert!(prompt.contains(
        "The target is a comprehensive, production-ready specification with deep detail."
    ));
}
