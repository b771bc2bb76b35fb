use opencode_forger::config::Config;
use opencode_forger::docs::get_doc;
use opencode_forger::ipc::protocol::{config_loaded, mode_by_id, mode_list, PROTOCOL_VERSION};
use opencode_forger::text::{decimal_string, join_strings, parse_u64, split_str, str_replace};

use opencode_forger::theming::{accent, error, highlight, muted, primary, progress_bar, success, warning, StyledString};
use opencode_forger::tui::types::InteractiveMode;

#[test]
fn docs_by_topic() {
    assert!(get_doc("workflow").unwrap().starts_with("# Workflow"));
    assert!(get_doc("identity").unwrap().starts_with("## Identity"));
    assert!(get_doc("templates-guide").is_some());
    assert!(get_doc("nothing").is_none());
}

#[test]
fn styled_text_rendering() {
    assert_eq!(StyledString::new("x").render(), "x");
    assert_eq!(success("ok").render(), "\x1b[38;5;108mok\x1b[0m");
    assert_eq!(highlight("h").render(), "\x1b[1;38;5;255mh\x1b[0m");
    assert_eq!(StyledString::new("b").bold().render(), "\x1b[1mb\x1b[0m");
    assert_eq!(primary("p").foreground, Some(110));
    assert_eq!(muted("m").foreground, Some(243));
    assert_eq!(warning("w").foreground, Some(179));
    assert_eq!(error("e").foreground, Some(167));
    assert_eq!(accent("a").foreground, Some(73));
    assert_eq!(opencode_forger::theming::boxes::line(3), "───");
}

#[test]
fn progress_bars() {
    assert_eq!(progress_bar(1, 2, 4), "\x1b[38;5;108m██\x1b[0m\x1b[38;5;243m░░\x1b[0m");
    assert_eq!(progress_bar(0, 0, 2), "\x1b[38;5;108m\x1b[0m\x1b[38;5;243m░░\x1b[0m");
    assert_eq!(progress_bar(1, 3, 10), format!("\x1b[38;5;108m{}\x1b[0m\x1b[38;5;243m{}\x1b[0m", "█".repeat(3), "░".repeat(7)));
    assert_eq!(progress_bar(1, 8, 4), format!("\x1b[38;5;108m{}\x1b[0m\x1b[38;5;243m{}\x1b[0m", "█".repeat(1), "░".repeat(3)));
    assert_eq!(progress_bar(4, 4, 5), format!("\x1b[38;5;108m{}\x1b[0m\x1b[38;5;243m\x1b[0m", "█".repeat(5)));
}

#[test]
fn ipc_modes() {
    assert_eq!(PROTOCOL_VERSION, "1.0.0");
    let list = mode_list();
    assert_eq!(list.modes.len(), 4);
    assert_eq!(list.modes[0].id, "generated");
    assert_eq!(list.modes[1].label, InteractiveMode::Manual.label());
    assert_eq!(mode_by_id("from_spec_file"), Some(InteractiveMode::FromSpecFile));
    assert_eq!(mode_by_id("x"), None);
    let c = config_loaded(true, Some("/p/forger.toml"));
    assert!(c.has_existing_config);
    assert_eq!(c.config_path.as_deref(), Some("/p/forger.toml"));
}

#[test]
fn text_helpers() {
    assert_eq!(decimal_string(0), "0");
    assert_eq!(decimal_string(12345), "12345");
    assert_eq!(join_strings(&vec!["a".to_string(), "b".to_string()], ", "), "a, b");
    assert_eq!(split_str("a,,b,", ','), vec!["a", "", "b", ""]);
    assert_eq!(str_replace("aaa", "aa", "b"), "ba");
    assert_eq!(parse_u64("+17"), Some(17));
    assert_eq!(parse_u64("18446744073709551615"), Some(u64::MAX));
    assert_eq!(parse_u64("18446744073709551616"), None);
    assert_eq!(parse_u64("+"), None);
    assert_eq!(parse_u64("-1"), None);
}

#[test]
fn default_config_values() {
    let c = Config::default();
    assert_eq!(c.generation.complexity, "comprehensive");
    assert_eq!(c.generation.requirements().min_features, 15);
    assert_eq!(c.paths.database_file, ".forger/progress.db");
}

#[test]
fn progress_bar_always_fills_its_width() {
    for total in 1..9usize {
        for current in 0..=total {
            let bar = opencode_forger::theming::progress_bar(current, total, 20);
            let cells = bar.chars().filter(|c| *c == '█' || *c == '░').count();
            assert_eq!(cells, 20);
        }
        let full = opencode_forger::theming::progress_bar(total, total, 20);
        assert_eq!(full.chars().filter(|c| *c == '█').count(), 20);
    }
}
