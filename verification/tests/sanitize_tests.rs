use opencode_forger::services::generator::sanitize::{is_valid_entity_at, sanitize_spec_xml};

#[test]
fn test_escape_stray_ampersand() {
    assert_eq!(sanitize_spec_xml("R&D"), "R&amp;D");
    assert_eq!(sanitize_spec_xml("A & B"), "A &amp; B");
    assert_eq!(sanitize_spec_xml("Tom & Jerry & Co"), "Tom &amp; Jerry &amp; Co");
}

#[test]
fn test_preserve_valid_entities() {
    assert_eq!(sanitize_spec_xml("&amp;"), "&amp;");
    assert_eq!(sanitize_spec_xml("&lt;"), "&lt;");
    assert_eq!(sanitize_spec_xml("&gt;"), "&gt;");
    assert_eq!(sanitize_spec_xml("&quot;"), "&quot;");
    assert_eq!(sanitize_spec_xml("&apos;"), "&apos;");
    assert_eq!(sanitize_spec_xml("&#65;"), "&#65;");
    assert_eq!(sanitize_spec_xml("&#x41;"), "&#x41;");
}

#[test]
fn test_escape_less_than_before_digit() {
    assert_eq!(sanitize_spec_xml("<100ms"), "&lt;100ms");
    assert_eq!(sanitize_spec_xml("latency <50ms"), "latency &lt;50ms");
    assert_eq!(sanitize_spec_xml("<1 second"), "&lt;1 second");
}

#[test]
fn test_escape_less_than_before_whitespace() {
    assert_eq!(sanitize_spec_xml("< 100"), "&lt; 100");
    assert_eq!(sanitize_spec_xml("value < limit"), "value &lt; limit");
}

#[test]
fn test_preserve_real_tags() {
    let xml = "<project_specification><name>Test</name></project_specification>";
    assert_eq!(sanitize_spec_xml(xml), xml);
}

#[test]
fn test_combined_issues() {
    let raw = "<overview>Our R&D team achieved <100ms response time for P&L reports</overview>";
    let expected = "<overview>Our R&amp;D team achieved &lt;100ms response time for P&amp;L reports</overview>";
    assert_eq!(sanitize_spec_xml(raw), expected);
}

#[test]
fn test_already_clean_xml() {
    let clean = r#"<project_specification>
            <project_name>Clean Project</project_name>
            <overview>A well-formed specification</overview>
        </project_specification>"#;
    assert_eq!(sanitize_spec_xml(clean), clean);
}

#[test]
fn test_mixed_valid_and_invalid_ampersands() {
    let input = "R&D uses &amp; and &lt; properly but Q&A doesn't";
    let expected = "R&amp;D uses &amp; and &lt; properly but Q&amp;A doesn't";
    assert_eq!(sanitize_spec_xml(input), expected);
}

#[test]
fn test_success_criteria_common_pattern() {
    let input = "<success_criteria>API response time <100ms</success_criteria>";
    let expected = "<success_criteria>API response time &lt;100ms</success_criteria>";
    assert_eq!(sanitize_spec_xml(input), expected);
}

#[test]
fn test_ampersand_at_end() {
    assert_eq!(sanitize_spec_xml("Test &"), "Test &amp;");
    assert_eq!(sanitize_spec_xml("&"), "&amp;");
}

#[test]
fn test_incomplete_entity() {
    assert_eq!(sanitize_spec_xml("&foo bar"), "&amp;foo bar");
    assert_eq!(sanitize_spec_xml("&#abc;"), "&amp;#abc;");
}

#[test]
fn sanitizing_twice_changes_nothing_more() {
    for input in ["R&D <5 & x", "&#x;&#;&", "a<b<1", "Q&A &amp;lt;"] {
        let once = sanitize_spec_xml(input);
        assert_eq!(sanitize_spec_xml(&once), once);
    }
}

#[test]
fn entity_detection() {
    let chars: Vec<char> = "x&amp;y&#12;z&bad".chars().collect();
    assert!(is_valid_entity_at(&chars, 1));
    assert!(is_valid_entity_at(&chars, 7));
    assert!(!is_valid_entity_at(&chars, 13));
}
