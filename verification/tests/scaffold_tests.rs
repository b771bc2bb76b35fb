use opencode_forger::config::Config;
use opencode_forger::services::scaffold::{
    generate_gitignore, generate_opencode_json, join_path_str, normalize_gitignore_path, resolve_scaffold_path,
    scaffold_default, scaffold_from_spec, scaffold_with_spec_text, StepKind,
};
use opencode_forger::spec::AppSpec;

#[test]
fn scaffold_paths_resolve() {
    assert_eq!(resolve_scaffold_path("/out", ".forger/app_brief.md"), "/out/.forger/app_brief.md");
    assert_eq!(resolve_scaffold_path("/out", "/abs/x.db"), "/abs/x.db");
    assert_eq!(resolve_scaffold_path("/out", "   "), "/out");
    assert_eq!(resolve_scaffold_path("out/", " a "), "out/a");
    assert_eq!(join_path_str("", "x"), "x");
}

#[test]
fn gitignore_entries_are_normalized() {
    assert_eq!(normalize_gitignore_path(" .cache "), ".cache/");
    assert_eq!(normalize_gitignore_path("a\\b"), "a/b/");
    assert_eq!(normalize_gitignore_path("dir/"), "dir/");
    assert_eq!(normalize_gitignore_path("/abs"), "");
    assert_eq!(normalize_gitignore_path("  "), "");
}

#[test]
fn gitignore_for_default_config() {
    let g = generate_gitignore(&Config::default());
    assert_eq!(
        g,
        "# MCP & Tool caches (do not commit)\n.approach-cache/\n.vs-cache/\n\n# OpenCode Forger\nprogress.db*\nopencode-debug*.log\n.conductor/\n.forger/logs/\n"
    );
}

#[test]
fn opencode_json_settings() {
    let mut c = Config::default();
    let j = generate_opencode_json(&c);
    assert!(j.contains("\"instructions\": [\n    \"forger.toml\",\n    \".forger/app_brief.md\"\n  ]"));
    assert!(j.contains("server-sequential-thinking\"],\n      \"enabled\": true"));
    assert!(j.contains("chrome-devtools-mcp@latest\"],\n      \"enabled\": false"));
    c.mcp.required_tools = vec!["Chrome-DevTools".to_string()];
    c.mcp.use_sequential_thinking = false;
    c.paths.app_spec_file = " ".to_string();
    let j2 = generate_opencode_json(&c);
    assert!(j2.contains("chrome-devtools-mcp@latest\"],\n      \"enabled\": true"));
    assert!(j2.contains("server-sequential-thinking\"],\n      \"enabled\": false"));
    assert!(j2.contains("\".forger/app_brief.md\""));
}

#[test]
fn plan_for_default_config() {
    let config = Config::default();
    let plan = scaffold_default("/proj", &config).unwrap();
    assert_eq!(plan[0].kind, StepKind::CreateDir);
    assert_eq!(plan[0].path, "/proj/.forger");
    assert_eq!(plan[1].path, "/proj/.opencode/command");
    assert_eq!(plan[2].path, "/proj/.opencode/agent");
    assert_eq!(plan[3].kind, StepKind::WriteFile);
    assert_eq!(plan[3].path, "/proj/.forger/app_brief.md");
    assert_eq!(plan[3].message, "   📄 Created /proj/.forger/app_brief.md");
    let init = &plan[4];
    assert_eq!(init.path, "/proj/.opencode/command/auto-init.md");
    assert!(!init.content.contains("{{"));
    assert!(init.content.contains("## Identity"));
    assert!(init.content.contains("Categories: functional, style, integration, performance."));
    assert!(init.content.contains("- Features: 15"));
    assert!(plan.iter().any(|s| s.kind == StepKind::OpenDatabase && s.path == "/proj/.forger/progress.db"));
    let toml = plan.iter().find(|s| s.path == "/proj/forger.toml").unwrap();
    assert_eq!(toml.kind, StepKind::WriteIfAbsent);
    assert_eq!(toml.existing_message, "   ⚙️  Using existing forger.toml");
    assert_eq!(plan.last().unwrap().path, "/proj/AGENTS.md");
    assert!(!plan.iter().any(|s| s.kind == StepKind::GitInit));
}

#[test]
fn plan_counts_spec_features() {
    let config = Config::default();
    let spec = "<project_specification><project_name>N</project_name><overview>O</overview><core_features><feature>a</feature><feature>b</feature></core_features></project_specification>";
    let plan = scaffold_with_spec_text("out", spec, &config).unwrap();
    let init = plan.iter().find(|s| s.path == "out/.opencode/command/auto-init.md").unwrap();
    assert!(init.content.contains("It lists 2 features and 0 API endpoints."));
}

#[test]
fn plan_without_opencode_dir() {
    let mut config = Config::default();
    config.scaffolding.create_opencode_dir = false;
    config.scaffolding.create_scripts_dir = true;
    config.scaffolding.git_init = true;
    let plan = scaffold_from_spec("p", &AppSpec::new("X"), &config).unwrap();
    assert!(!plan.iter().any(|s| s.path.contains(".opencode")));
    assert!(plan.iter().any(|s| s.kind == StepKind::CreateDir && s.path == "p/scripts"));
    assert!(plan.iter().any(|s| s.kind == StepKind::GitInit && s.path == "p/.git"));
    assert!(plan[1].content.starts_with("<project_specification>\n  <project_name>X</project_name>"));
}

#[test]
fn plan_writes_the_spec_text_unchanged() {
    let config = Config::default();
    let text = "<project_specification><project_name>P</project_name></project_specification>";
    let plan = scaffold_with_spec_text("out", text, &config).unwrap();
    let spec_step = plan.iter().find(|s| s.path == "out/.forger/app_brief.md").unwrap();
    assert_eq!(spec_step.kind, StepKind::WriteFile);
    assert_eq!(spec_step.content, text);
    let json = plan.iter().find(|s| s.path == "out/opencode.json").unwrap();
    assert_eq!(json.content, generate_opencode_json(&config));
    assert_eq!(plan.last().unwrap().kind, StepKind::WriteIfAbsent);
}
