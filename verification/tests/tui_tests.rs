use opencode_forger::config::Config;
use opencode_forger::spec::Priority;
use opencode_forger::tui::answers::{confirm_answer, input_answer, optional_answer, select_answer, MultilineInput};
use opencode_forger::tui::config_editor::{apply_edit, config_fields, edit_start_value, sections, ConfigEditorState};
use opencode_forger::tui::editor::{EditorApp, EditorCommand, SpecSection};
use opencode_forger::tui::keys::Key;
use opencode_forger::tui::manual::{
    build_priority_options, default_priority_index, merge_choices, needs_custom, parse_choices, priority_at,
};
use opencode_forger::tui::review::{build_preview, review_action_labels, review_layout, wrap_line, ReviewState};
use opencode_forger::tui::setup::{Phase, SetupState};
use opencode_forger::tui::types::{InteractiveMode, SpecAction};

#[test]
fn confirm_answers() {
    assert!(confirm_answer(" Y ", false));
    assert!(confirm_answer("yes", false));
    assert!(!confirm_answer("No", true));
    assert!(confirm_answer("", true));
    assert!(!confirm_answer("maybe", false));
}

#[test]
fn select_answers() {
    assert_eq!(select_answer("", 4, 2), 2);
    assert_eq!(select_answer("3", 4, 0), 2);
    assert_eq!(select_answer("+1", 4, 3), 0);
    assert_eq!(select_answer("0", 4, 3), 0);
    assert_eq!(select_answer("9", 4, 0), 3);
    assert_eq!(select_answer("abc", 4, 1), 1);
    assert_eq!(select_answer("99999999999999999999999", 4, 1), 1);
}

#[test]
fn text_answers() {
    assert_eq!(input_answer("  ", Some("app_brief.md")), "app_brief.md");
    assert_eq!(input_answer("", None), "");
    assert_eq!(input_answer(" x ", Some("d")), " x ");
    assert!(optional_answer(" ").is_none());
    assert_eq!(optional_answer("Jest").unwrap(), "Jest");
}

#[test]
fn multiline_input_ends_after_blank_lines() {
    let mut m = MultilineInput::new();
    m.feed("first", 2);
    m.feed("", 2);
    m.feed("second", 2);
    m.feed("  ", 2);
    assert!(!m.done);
    m.feed("", 2);
    assert!(m.done);
    assert_eq!(m.text().unwrap(), "first\nsecond");
    let empty = MultilineInput::new();
    assert!(empty.text().is_none());
}

#[test]
fn priority_options_follow_config() {
    let mut config = Config::default();
    config.features.priorities = vec!["HIGH".to_string(), "bogus".to_string(), "low".to_string()];
    let opts = build_priority_options(&config);
    assert_eq!(opts.len(), 2);
    assert_eq!(opts[0].label, "High");
    assert_eq!(opts[1].value, Priority::Low);
    assert_eq!(default_priority_index(&opts), 0);
    assert_eq!(priority_at(&opts, 5), Priority::Medium);
    config.features.priorities = vec![];
    let all = build_priority_options(&config);
    assert_eq!(all.len(), 4);
    assert_eq!(default_priority_index(&all), 2);
}

#[test]
fn list_answers() {
    let items = parse_choices(" Rust, ,Go ,other");
    assert_eq!(items, vec!["Rust".to_string(), "Go".to_string(), "other".to_string()]);
    assert!(needs_custom(&items));
    let merged = merge_choices(items, "Zig,  Nim ,");
    assert_eq!(merged, vec!["Rust", "Go", "Zig", "Nim"]);
    let plain = merge_choices(vec!["A".to_string()], "B");
    assert_eq!(plain, vec!["A"]);
}

#[test]
fn modes() {
    let all = InteractiveMode::all();
    assert_eq!(all.len(), 4);
    assert_eq!(all[2].id(), "from_spec_file");
    assert_eq!(InteractiveMode::Default.label(), "⚡ Default - Use built-in specification");
    assert_eq!(InteractiveMode::default(), InteractiveMode::Generated);
}

#[test]
fn setup_flow_without_config() {
    let mut s = SetupState::new(false);
    s.on_key(Key::Down);
    s.on_key(Key::Down);
    assert_eq!(s.setup_choice, 1);
    s.on_key(Key::Enter);
    assert_eq!(s.phase, Phase::ModeSelection);
    s.on_key(Key::Char('j'));
    s.on_key(Key::Char('j'));
    s.on_key(Key::Char('j'));
    s.on_key(Key::Char('j'));
    assert_eq!(s.selected_mode, 3);
    s.on_key(Key::Enter);
    assert!(s.finished());
    let r = s.result(false);
    assert_eq!(r.mode, Some(InteractiveMode::Default));
    assert!(r.should_configure);
    assert!(!r.reconfigure);
}

#[test]
fn setup_flow_with_config() {
    let mut s = SetupState::new(true);
    s.on_key(Key::Char('y'));
    assert_eq!(s.phase, Phase::ModeSelection);
    s.on_key(Key::Enter);
    let r = s.result(true);
    assert_eq!(r.mode, Some(InteractiveMode::Generated));
    assert!(r.reconfigure);
    assert!(!r.should_configure);
    let mut q = SetupState::new(true);
    q.on_key(Key::Esc);
    assert!(q.finished());
    assert_eq!(q.result(true).mode, None);
}

#[test]
fn wrapping_lines() {
    assert_eq!(wrap_line("abcdef", 4), vec!["abcd", "ef"]);
    assert_eq!(wrap_line("abc", 0), vec![""]);
    assert_eq!(wrap_line("", 5), vec![""]);
    assert_eq!(wrap_line("日本語", 4), vec!["日本", "語"]);
    assert_eq!(wrap_line("日", 1), vec!["日"]);
}

#[test]
fn preview_is_limited() {
    let lines: Vec<String> = vec!["abcdef".to_string(), "gh".to_string(), "ijkl".to_string()];
    assert_eq!(build_preview(&lines, 4, 2), "abcd\nef");
    assert_eq!(build_preview(&lines, 4, 10), "abcd\nef\ngh\nijkl");
    assert_eq!(build_preview(&lines, 0, 2), "a\nb");
    assert_eq!(build_preview(&lines, 4, 0), "");
}

#[test]
fn review_keys() {
    let mut s = ReviewState::new(false);
    assert_eq!(s.selected, 1);
    s.on_key(Key::Up);
    s.on_key(Key::Up);
    assert_eq!(s.selected, 0);
    s.on_key(Key::PageDown);
    s.on_key(Key::PageUp);
    s.on_key(Key::PageUp);
    assert_eq!(s.scroll_offset, 0);
    s.on_key(Key::Down);
    s.on_key(Key::Down);
    s.on_key(Key::Enter);
    assert_eq!(s.outcome(), SpecAction::SaveToFile);
    let mut q = ReviewState::new(true);
    q.on_key(Key::Char('q'));
    assert!(q.should_exit);
    assert_eq!(q.outcome(), SpecAction::Cancel);
    assert_eq!(review_action_labels(false)[0], "⚠ Accept anyway");
}

#[test]
fn review_layout_sizes() {
    assert_eq!(review_layout(100, 40, 25), (32, 66, 62, 25));
    assert_eq!(review_layout(30, 5, 25), (12, 16, 12, 0));
}

#[test]
fn config_editor_fields_and_edits() {
    let mut config = Config::default();
    let tools = vec!["playwright".to_string()];
    assert_eq!(sections().len(), 11);
    let mcp = config_fields(&config, 4, &tools);
    assert_eq!(mcp[2], ("playwright".to_string(), "false".to_string()));
    apply_edit(&mut config, 4, 2, "TRUE".to_string(), &tools);
    assert_eq!(config.mcp.required_tools, vec!["playwright".to_string()]);
    apply_edit(&mut config, 4, 2, "true".to_string(), &tools);
    assert_eq!(config.mcp.required_tools.len(), 1);
    apply_edit(&mut config, 4, 2, "no".to_string(), &tools);
    assert!(config.mcp.required_tools.is_empty());
    apply_edit(&mut config, 1, 0, "42".to_string(), &tools);
    assert_eq!(config.autonomous.max_iterations, 42);
    apply_edit(&mut config, 1, 0, "x".to_string(), &tools);
    assert_eq!(config.autonomous.max_iterations, 42);
    apply_edit(&mut config, 8, 1, "".to_string(), &tools);
    assert!(config.notifications.webhook_url.is_none());
    apply_edit(&mut config, 8, 1, "http://h".to_string(), &tools);
    assert_eq!(config.notifications.webhook_url.as_deref(), Some("http://h"));
    assert_eq!(edit_start_value(&config, 5, 1), config.generation.include_accessibility.to_string());
    assert_eq!(edit_start_value(&config, 10, 1), "http://h");
}

#[test]
fn config_editor_keys() {
    let mut config = Config::default();
    let tools: Vec<String> = vec![];
    let mut s = ConfigEditorState::new();
    s.on_key(Key::Right, &mut config, &tools);
    assert_eq!(s.section, 1);
    s.on_key(Key::Down, &mut config, &tools);
    s.on_key(Key::Enter, &mut config, &tools);
    assert!(s.editing);
    assert_eq!(s.buffer, "5");
    s.on_key(Key::Backspace, &mut config, &tools);
    s.on_key(Key::Char('9'), &mut config, &tools);
    s.on_key(Key::Enter, &mut config, &tools);
    assert!(!s.editing);
    assert_eq!(config.autonomous.delay_between_sessions, 9);
    s.on_key(Key::Char('q'), &mut config, &tools);
    assert!(s.should_exit);
}

#[test]
fn section_editor() {
    let mut app = EditorApp::new();
    assert_eq!(SpecSection::all().len(), 7);
    assert_eq!(app.selected_section().as_str(), "Project Name");
    app.previous();
    assert_eq!(app.selected, 6);
    app.next();
    assert_eq!(app.selected, 0);
    assert_eq!(app.on_browse_key(Key::Enter), EditorCommand::Continue);
    assert!(app.editing);
    app.handle_edit_input('H');
    app.handle_edit_input('i');
    app.handle_edit_backspace();
    app.handle_edit_newline();
    assert_eq!(app.edit_buffer, "H\n");
    app.save_edit();
    assert_eq!(app.content[0], "H\n");
    assert_eq!(app.on_browse_key(Key::Char('s')), EditorCommand::SaveAndScaffold);
    let spec = app.generate_spec();
    assert!(spec.starts_with("<project_specification>\n<project_name>H\n</project_name>"));
    assert!(spec.contains("<technology_stack>\nReact, Node.js\n</technology_stack>"));
    assert!(spec.ends_with("</project_specification>"));
}
