use opencode_forger::verbalized_sampling::{
    build_selector_prompt, build_vs_prompt, cache_file_path, feature_hash, hex_string, json_candidates,
    model_failure_message, unparsable_approaches_message, VSConfig,
};

#[test]
fn test_feature_hash() {
    let hash1 = feature_hash("Add user authentication");
    let hash2 = feature_hash("Add user authentication");
    let hash3 = feature_hash("Add password reset");

    assert_eq!(hash1, hash2);
    assert_ne!(hash1, hash3);
}

#[test]
fn hex_formatting() {
    assert_eq!(hex_string(0), "0");
    assert_eq!(hex_string(255), "ff");
    assert_eq!(hex_string(4096), "1000");
    assert_eq!(hex_string(u64::MAX), "ffffffffffffffff");
    assert_eq!(hex_string(0xdeadbeef), format!("{:x}", 0xdeadbeefu64));
}

#[test]
fn cache_path_uses_hash() {
    let p = cache_file_path(".vs-cache", "Feature");
    assert_eq!(p, format!(".vs-cache/{}.json", feature_hash("Feature")));
}

#[test]
fn default_settings() {
    let c = VSConfig::default();
    assert!(c.generator_model.is_none());
    assert_eq!(c.selector_model, "io-intelligence/deepseek-ai/DeepSeek-V3.2");
    assert_eq!(c.cache_dir, ".vs-cache");
    assert!(c.cache_enabled);
}

#[test]
fn prompts_are_filled() {
    let p = build_vs_prompt("Login", "Rust", "CLI", "modules");
    assert!(p.contains("Login") && p.contains("Rust") && p.contains("CLI") && p.contains("modules"));
    assert!(!p.contains("{{"));
    let s = build_selector_prompt("ov", "ts", "cp", "fd", "high", "moderate", "[]");
    assert!(s.contains("(priority: high, risk tolerance: moderate)"));
    assert!(!s.contains("{{"));
}

#[test]
fn json_is_found_in_output() {
    let (braced, fenced) = json_candidates("noise {\"a\": 1} more } end");
    assert_eq!(braced.unwrap(), "{\"a\": 1} more }");
    assert!(fenced.is_none());
    let (b2, f2) = json_candidates("```json\n  [1]  \n```\nrest");
    assert!(b2.is_none());
    assert_eq!(f2.unwrap(), "[1]");
}

#[test]
fn failure_messages_show_output_start() {
    let long = "x".repeat(600);
    let m = unparsable_approaches_message(&long);
    assert!(m.ends_with(&"x".repeat(500)));
    assert!(!m.ends_with(&"x".repeat(501)));
    assert_eq!(model_failure_message("VS", "oops"), "OpenCode exited with error during VS. Output:\noops");
}

#[test]
fn brace_right_after_the_last_close_gives_empty_text() {
    let (braced, fenced) = json_candidates("x}{y");
    assert_eq!(braced, Some(String::new()));
    assert_eq!(fenced, None);
}
