use codex_status::summary::{
    approval_of, compose_model_display, format_model_provider, sandbox_label, SandboxKind,
};

fn entry(key: &'static str, value: &str) -> (&'static str, String) {
    (key, value.to_string())
}

#[test]
fn model_display_without_details() {
    let (name, details) = compose_model_display("gpt-5", &[]);
    assert_eq!(name, "gpt-5");
    assert!(details.is_empty());
    let (name, details) = compose_model_display("<default>", &[entry("approval", "never")]);
    assert_eq!(name, "<default>");
    assert!(details.is_empty());
}

#[test]
fn model_display_effort_and_summaries() {
    let entries = [
        entry("workdir", "/tmp"),
        entry("reasoning effort", "High"),
        entry("reasoning summaries", "  Detailed "),
    ];
    let (name, details) = compose_model_display("gpt-5", &entries);
    assert_eq!(name, "gpt-5");
    assert_eq!(details, vec!["reasoning high".to_string(), "summaries detailed".to_string()]);
}

#[test]
fn model_display_summaries_off() {
    for value in ["none", "None", "NONE", "off", "Off", " oFF\t"] {
        let (_, details) = compose_model_display("m", &[entry("reasoning summaries", value)]);
        assert_eq!(details, vec!["summaries off".to_string()]);
    }
    for value in ["", "   ", "\n\t"] {
        let (_, details) = compose_model_display("m", &[entry("reasoning summaries", value)]);
        assert!(details.is_empty());
    }
    let (_, details) = compose_model_display("m", &[entry("reasoning summaries", "nones")]);
    assert_eq!(details, vec!["summaries nones".to_string()]);
}

#[test]
fn model_display_first_entry_counts_and_effort_is_not_trimmed() {
    let entries = [
        entry("reasoning summaries", "AUTO"),
        entry("reasoning effort", " Low "),
        entry("reasoning effort", "high"),
        entry("reasoning summaries", "off"),
    ];
    let (_, details) = compose_model_display("m", &entries);
    assert_eq!(details, vec!["reasoning  low ".to_string(), "summaries auto".to_string()]);
    let (_, details) = compose_model_display("m", &[entry("reasoning effort", "\u{c9}LEV\u{c9}")]);
    assert_eq!(details, vec!["reasoning \u{c9}lev\u{c9}".to_string()]);
}

#[test]
fn model_provider_cases() {
    assert_eq!(format_model_provider("OpenAI", "openai", true, false), None);
    assert_eq!(
        format_model_provider("OpenAI", "openai", true, true),
        Some("OpenAI".to_string())
    );
    assert_eq!(
        format_model_provider("  Azure  ", "azure", false, false),
        Some("Azure".to_string())
    );
    assert_eq!(format_model_provider("   ", "ollama", false, true), Some("ollama".to_string()));
    assert_eq!(format_model_provider("", "ollama", false, false), Some("ollama".to_string()));
    assert_eq!(format_model_provider("", "", true, false), None);
}

#[test]
fn approval_lookup() {
    assert_eq!(approval_of(&[]), "<unknown>");
    assert_eq!(approval_of(&[entry("sandbox", "x"), entry("approval", "on-request")]), "on-request");
    assert_eq!(approval_of(&[entry("approval", "a"), entry("approval", "b")]), "a");
    assert_eq!(approval_of(&[entry("Approval", "a")]), "<unknown>");
}

#[test]
fn sandbox_names() {
    assert_eq!(sandbox_label(SandboxKind::DangerFullAccess), "danger-full-access");
    assert_eq!(sandbox_label(SandboxKind::ReadOnly), "read-only");
    assert_eq!(sandbox_label(SandboxKind::WorkspaceWrite), "workspace-write");
    assert_eq!(
        sandbox_label(SandboxKind::ExternalSandbox { network_enabled: true }),
        "external-sandbox (network access enabled)"
    );
    assert_eq!(
        sandbox_label(SandboxKind::ExternalSandbox { network_enabled: false }),
        "external-sandbox"
    );
}
