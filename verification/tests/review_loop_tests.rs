use opencode_forger::config::Config;
use opencode_forger::services::generator::parser::extract_spec_from_output;
use opencode_forger::tui::review::wrap_line;
use opencode_forger::services::scaffold::preview_scaffold;
use opencode_forger::templates::list_templates;
use opencode_forger::tui::actions::{confirmed_step, numbered_spec_lines, review_step, step_ends_loop, ReviewStep};
use opencode_forger::tui::config_editor::{apply_edit, edit_start_value};
use opencode_forger::tui::setup::{next_after_setup, SetupNext};
use opencode_forger::tui::types::{InteractiveMode, SetupResult, SpecAction};

#[test]
fn numbered_listing_of_a_short_spec() {
    let lines = numbered_spec_lines("<a>\r\n  <b/>\n</a>\n");
    assert_eq!(lines.len(), 6);
    assert_eq!(lines[0], "\nCurrent specification (with line numbers):");
    assert_eq!(lines[1], "─".repeat(60));
    assert_eq!(lines[2], "   1 │ <a>");
    assert_eq!(lines[3], "   2 │   <b/>");
    assert_eq!(lines[4], "   3 │ </a>");
    assert_eq!(lines[5], "─".repeat(60));
}

#[test]
fn numbered_listing_stops_after_fifty_lines() {
    let text: String = (1..=123).map(|i| format!("line {}\n", i)).collect();
    let lines = numbered_spec_lines(&text);
    assert_eq!(lines.len(), 2 + 50 + 1 + 1);
    assert_eq!(lines[2], "   1 │ line 1");
    assert_eq!(lines[51], "  50 │ line 50");
    assert_eq!(lines[52], "     │ ... (73 more lines)");
    let empty = numbered_spec_lines("");
    assert_eq!(empty.len(), 3);
}

#[test]
fn review_steps() {
    assert_eq!(review_step(SpecAction::Accept, true), ReviewStep::Scaffold);
    assert_eq!(review_step(SpecAction::Accept, false), ReviewStep::ConfirmScaffold);
    assert_eq!(review_step(SpecAction::SaveToFile, false), ReviewStep::Save);
    assert_eq!(confirmed_step(false), ReviewStep::ReviewAgain);
    assert_eq!(confirmed_step(true), ReviewStep::Scaffold);
    assert!(step_ends_loop(ReviewStep::Cancel));
    assert!(!step_ends_loop(review_step(SpecAction::Edit, true)));
    assert!(!step_ends_loop(review_step(SpecAction::Refine, false)));
}

#[test]
fn setup_result_leads_to_mode() {
    let cancel = SetupResult { mode: None, should_configure: true, reconfigure: false };
    assert_eq!(next_after_setup(cancel), SetupNext::Cancel);
    let run = SetupResult { mode: Some(InteractiveMode::Manual), should_configure: false, reconfigure: true };
    assert_eq!(next_after_setup(run), SetupNext::Run { mode: InteractiveMode::Manual, configure: true });
    let plain = SetupResult { mode: Some(InteractiveMode::Default), should_configure: false, reconfigure: false };
    assert_eq!(next_after_setup(plain), SetupNext::Run { mode: InteractiveMode::Default, configure: false });
}

#[test]
fn dry_run_lists_paths() {
    let config = Config::default();
    let lines = preview_scaffold("/proj", &config);
    assert_eq!(lines[0], "\n📋 Preview: Files that would be created");
    assert_eq!(lines[3], "   📁 /proj/.forger");
    assert!(lines.contains(&"   📄 /proj/.forger/app_brief.md".to_string()));
    assert!(lines.contains(&"   ⚙️  /proj/opencode.json".to_string()));
    assert_eq!(lines.last().unwrap(), "Run without --dry-run to create these files.");
    let mut bare = Config::default();
    bare.scaffolding.create_opencode_dir = false;
    let fewer = preview_scaffold("/proj", &bare);
    assert_eq!(lines.len() - fewer.len(), 5);
    assert!(!fewer.iter().any(|l| l.contains("auto-init.md")));
}

#[test]
fn template_listing() {
    let lines = list_templates();
    assert_eq!(lines[0], "\n📚 Available Templates");
    assert_eq!(lines[2], "\n  🌐 Full-Stack Web App (web-app-fullstack)");
    assert_eq!(lines[3], "    React + Node.js/Express with SQLite");
    assert_eq!(lines.len(), 2 + 6 + 3);
    assert_eq!(lines[lines.len() - 2], "Use: opencode-forger templates use <name>");
}

#[test]
fn edited_model_reads_back() {
    let mut config = Config::default();
    let tools: Vec<String> = vec!["osgrep".to_string()];
    apply_edit(&mut config, 0, 4, "my/fixer".to_string(), &tools);
    assert_eq!(config.models.fixer, "my/fixer");
    assert_eq!(edit_start_value(&config, 0, 4), "my/fixer");
    apply_edit(&mut config, 4, 0, "TRUE".to_string(), &tools);
    assert_eq!(edit_start_value(&config, 4, 0), "true");
    apply_edit(&mut config, 4, 2, "true".to_string(), &tools);
    assert!(config.mcp.required_tools.contains(&"osgrep".to_string()));
    apply_edit(&mut config, 4, 2, "no".to_string(), &tools);
    assert!(!config.mcp.required_tools.contains(&"osgrep".to_string()));
}

#[test]
fn wrapping_keeps_every_character() {
    let line = "Wrapped lines keep their text: 日本語 and ascii";
    for width in 1..12 {
        let pieces = wrap_line(line, width);
        assert_eq!(pieces.concat(), line);
        for p in &pieces {
            let w: usize = p.chars().map(|c| unicode_width::UnicodeWidthChar::width(c).unwrap_or(0)).sum();
            assert!(w <= width || p.chars().count() <= 1);
        }
    }
}

#[test]
fn extracted_block_keeps_its_tags() {
    let out = "noise <project_specification><project_name>X</project_name></project_specification> tail";
    let spec = extract_spec_from_output(out).unwrap();
    assert!(spec.starts_with("<project_specification>"));
    assert!(spec.ends_with("</project_specification>"));
}

#[test]
fn opening_and_saving_a_section_changes_nothing() {
    use_editor_round_trip();
}

fn use_editor_round_trip() {
    let mut app = opencode_forger::tui::editor::EditorApp::new();
    app.next();
    app.next();
    let before = app.content.clone();
    app.start_editing();
    assert_eq!(app.edit_buffer, "React, Node.js");
    app.save_edit();
    assert_eq!(app.content, before);
    assert!(!app.editing);
}
