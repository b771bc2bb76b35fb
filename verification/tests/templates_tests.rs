use opencode_forger::services::scaffold::assets::{
    auto_continue_template, auto_enhance_template, auto_init_template, core_database, core_identity,
    core_mcp_guide, core_security, core_signaling, AUTO_INIT_TEMPLATE,
};
use opencode_forger::services::scaffold::resolve_includes;
use opencode_forger::template_xml::render_template;
use opencode_forger::templates::{fill_template, get_template_by_name, get_templates};
use opencode_forger::services::generator::prompts::GENERATOR_PROMPT;

fn estimate_tokens(text: &str) -> usize {
    text.len().div_ceil(4)
}

#[test]
fn test_templates_exist() {
    let templates = get_templates().unwrap();
    assert_eq!(templates.len(), 3);
}

#[test]
fn test_get_template_by_name() {
    let template = get_template_by_name("cli-tool").unwrap();
    assert!(template.is_some());
    assert_eq!(template.unwrap().name, "cli-tool");
}

#[test]
fn test_template_has_placeholders() {
    let templates = get_templates().unwrap();
    for template in templates {
        assert!(template.content.contains("{{PROJECT_NAME}}"));
    }
}

#[test]
fn test_project_template_token_counts() {
    println!("\n=== PROJECT TEMPLATE TOKEN COUNTS ===\n");
    let templates = get_templates().unwrap();
    let mut total_tokens = 0;
    for template in &templates {
        let chars = template.content.len();
        let tokens = estimate_tokens(&template.content);
        total_tokens += tokens;
        println!("{:<25} {:>6} chars  ~{:>5} tokens", template.name, chars, tokens);
    }
    println!("\n{:<25} {:>14} ~{:>5} tokens", "TOTAL", "", total_tokens);
    println!();
}

#[test]
fn test_command_template_token_counts() {
    let auto_init = auto_init_template().unwrap();
    let auto_continue = auto_continue_template().unwrap();
    let auto_enhance = auto_enhance_template().unwrap();
    let core_modules = [
        ("core/identity.xml", core_identity().unwrap()),
        ("core/security.xml", core_security().unwrap()),
        ("core/database.xml", core_database().unwrap()),
        ("core/mcp_guide.xml", core_mcp_guide().unwrap()),
        ("core/signaling.xml", core_signaling().unwrap()),
    ];
    println!("\n=== COMMAND TEMPLATE TOKEN COUNTS ===\n");
    println!("--- Core Modules (included via {{{{INCLUDE}}}}) ---\n");
    for (name, content) in &core_modules {
        println!("{:<30} {:>6} chars  ~{:>5} tokens", name, content.len(), estimate_tokens(content));
    }
    println!("\n--- Command Templates (Raw, before include resolution) ---\n");
    let commands_raw = [("auto-init.xml", &auto_init), ("auto-continue.xml", &auto_continue), ("auto-enhance.xml", &auto_enhance)];
    for (name, content) in &commands_raw {
        println!("{:<30} {:>6} chars  ~{:>5} tokens", name, content.len(), estimate_tokens(content));
    }
    println!("\n--- Command Templates (Resolved, after include resolution) ---\n");
    let commands_resolved = [
        ("auto-init.xml (resolved)", resolve_includes(&auto_init).unwrap()),
        ("auto-continue.xml (resolved)", resolve_includes(&auto_continue).unwrap()),
        ("auto-enhance.xml (resolved)", resolve_includes(&auto_enhance).unwrap()),
    ];
    for (name, content) in &commands_resolved {
        println!("{:<30} {:>6} chars  ~{:>5} tokens", name, content.len(), estimate_tokens(content));
    }
    println!();
}

#[test]
fn test_generator_prompt_token_count() {
    println!("\n=== GENERATOR PROMPT TOKEN COUNT ===\n");
    let generator_prompt = render_template(GENERATOR_PROMPT).unwrap();
    let tokens = estimate_tokens(&generator_prompt);
    println!("{:<30} {:>6} chars  ~{:>5} tokens", "generator_prompt.xml", generator_prompt.len(), tokens);
    println!();
}

#[test]
fn template_lookup_unknown_name() {
    assert!(get_template_by_name("no-such-template").unwrap().is_none());
    let web = get_template_by_name("web-app-fullstack").unwrap().unwrap();
    assert_eq!(web.display_name, "🌐 Full-Stack Web App");
}

#[test]
fn fill_template_replaces_placeholders() {
    let filled = fill_template("<n>{{PROJECT_NAME}}</n><d>{{DESCRIPTION}}</d>{{PROJECT_NAME}}", "Acme", "Tools");
    assert_eq!(filled, "<n>Acme</n><d>Tools</d>Acme");
}

#[test]
fn render_template_unwraps_content() {
    let t = "<template name=\"x\"><content>Hello {{NAME}}</content></template>";
    assert_eq!(render_template(t).unwrap(), "Hello {{NAME}}");
    assert_eq!(render_template("plain text").unwrap(), "plain text");
    let missing = render_template("<template><other>x</other></template>");
    assert_eq!(missing.unwrap_err().message, "Template content missing <content> block");
    let empty = render_template("<template><content></content></template>");
    assert!(empty.is_err());
}

#[test]
fn includes_are_resolved() {
    let t = "A {{INCLUDE core/identity.xml}} B {{INCLUDE core/unknown.xml}}";
    let r = resolve_includes(t).unwrap();
    assert!(r.starts_with("A ## Identity"));
    assert!(r.ends_with(" B {{INCLUDE core/unknown.xml}}"));
}

#[test]
fn auto_init_template_renders_to_itself() {
    let first = auto_init_template().unwrap();
    let second = auto_init_template().unwrap();
    assert!(!first.is_empty());
    assert_eq!(first, AUTO_INIT_TEMPLATE);
    assert_eq!(first, second);
}
