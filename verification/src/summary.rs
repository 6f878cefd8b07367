//! The configuration part of the report: the model with its details, the
//! model provider, the approval policy and the sandbox.

use vstd::prelude::*;
use crate::text::{
    ascii_lowercase, chars_of, eq_ignore_ascii_case, push_chars, push_str, same_ignoring_ascii_case,
    same_text, string_from_chars, texts, to_ascii_lowercase, trim, trimmed,
};

verus! {

/// The value of the first entry under `key`.
pub open spec fn first_value(entries: Seq<(&str, String)>, key: Seq<char>) -> Option<Seq<char>>
    decreases entries.len(),
{
    if entries.len() == 0 {
        None
    } else if entries[0].0@ == key {
        Some(entries[0].1@)
    } else {
        first_value(entries.drop_first(), key)
    }
}

/// The detail on reasoning effort: the word `reasoning` and the effort in
/// lower case, where the entries name one.
pub open spec fn effort_detail(entries: Seq<(&str, String)>) -> Seq<Seq<char>> {
    match first_value(entries, "reasoning effort"@) {
        Some(effort) => seq!["reasoning "@ + ascii_lowercase(effort)],
        None => Seq::empty(),
    }
}

/// The detail on reasoning summaries, where the entries name one: `summaries
/// off` for `none` and `off` in any case, else the word `summaries` and the
/// trimmed value in lower case; nothing for a value that is blank.
pub open spec fn summaries_detail(entries: Seq<(&str, String)>) -> Seq<Seq<char>> {
    match first_value(entries, "reasoning summaries"@) {
        Some(value) => {
            let summary = trimmed(value);
            if same_ignoring_ascii_case(summary, "none"@) || same_ignoring_ascii_case(
                summary,
                "off"@,
            ) {
                seq!["summaries off"@]
            } else if summary.len() > 0 {
                seq!["summaries "@ + ascii_lowercase(summary)]
            } else {
                Seq::empty()
            }
        },
        None => Seq::empty(),
    }
}

/// The details that follow the model's name: effort first, then summaries.
pub open spec fn model_details(entries: Seq<(&str, String)>) -> Seq<Seq<char>> {
    effort_detail(entries) + summaries_detail(entries)
}

fn find_value<'a>(entries: &'a [(&str, String)], key: &str) -> (found: Option<&'a String>)
    ensures
        match found {
            Some(value) => first_value(entries@, key@) == Some(value@),
            None => first_value(entries@, key@) is None,
        },
{
    let mut i: usize = 0;
    assert(entries@.skip(0) == entries@);
    while i < entries.len()
        invariant
            i <= entries.len(),
            first_value(entries@, key@) == first_value(entries@.skip(i as int), key@),
        decreases entries.len() - i,
    {
        assert(entries@.skip(i as int).drop_first() == entries@.skip(i + 1));
        assert(entries@.skip(i as int)[0] == entries@[i as int]);
        if same_text(entries[i].0, key) {
            return Some(&entries[i].1);
        }
        i += 1;
    }
    None
}

/// Composes what the report shows of the model: its name as it is, and
/// the details drawn from the configuration summary.
pub fn compose_model_display(model_name: &str, entries: &[(&str, String)]) -> (display: (
    String,
    Vec<String>,
))
    ensures
        display.0@ == model_name@,
        texts(display.1@) == model_details(entries@),
{
    let mut details: Vec<String> = Vec::new();
    match find_value(entries, "reasoning effort") {
        Some(effort) => {
            let mut detail: Vec<char> = Vec::new();
            push_str(&mut detail, "reasoning ");
            push_chars(&mut detail, &to_ascii_lowercase(&chars_of(effort.as_str())));
            details.push(string_from_chars(&detail));
        },
        None => {},
    }
    assert(texts(details@) =~= effort_detail(entries@));
    match find_value(entries, "reasoning summaries") {
        Some(value) => {
            let summary = trim(&chars_of(value.as_str()));
            if eq_ignore_ascii_case(&summary, "none") || eq_ignore_ascii_case(&summary, "off") {
                details.push("summaries off".to_owned());
            } else if summary.len() > 0 {
                let mut detail: Vec<char> = Vec::new();
                push_str(&mut detail, "summaries ");
                push_chars(&mut detail, &to_ascii_lowercase(&summary));
                details.push(string_from_chars(&detail));
            }
        },
        None => {},
    }
    assert(texts(details@) =~= model_details(entries@));
    (model_name.to_owned(), details)
}

/// The provider that the report names: none for the default service at its
/// default address, else the provider's trimmed name, or its identifier
/// where the name is blank.
pub open spec fn model_provider_text(
    name: Seq<char>,
    provider_id: Seq<char>,
    is_default_service: bool,
    has_base_url: bool,
) -> Option<Seq<char>> {
    if is_default_service && !has_base_url {
        None
    } else if trimmed(name).len() == 0 {
        Some(provider_id)
    } else {
        Some(trimmed(name))
    }
}

/// Decides whether the report names the model provider, and how.
pub fn format_model_provider(
    name: &str,
    provider_id: &str,
    is_default_service: bool,
    has_base_url: bool,
) -> (provider: Option<String>)
    ensures
        match provider {
            Some(text) => model_provider_text(name@, provider_id@, is_default_service, has_base_url)
                == Some(text@),
            None => model_provider_text(name@, provider_id@, is_default_service, has_base_url)
                is None,
        },
{
    if is_default_service && !has_base_url {
        return None;
    }
    let shown = trim(&chars_of(name));
    if shown.len() == 0 {
        Some(provider_id.to_owned())
    } else {
        Some(string_from_chars(&shown))
    }
}

/// The value that the report shows for the model: its name, and in
/// brackets the details, separated by commas, where there are any.
pub open spec fn model_value(name: Seq<char>, details: Seq<Seq<char>>) -> Seq<char> {
    if details.len() == 0 {
        name
    } else {
        name + " ("@ + crate::text::joined(details, ", "@) + seq![')']
    }
}

/// The approval policy that the report shows: the value of the entry
/// `approval`, `<unknown>` without one.
pub open spec fn approval_text(entries: Seq<(&str, String)>) -> Seq<char> {
    match first_value(entries, "approval"@) {
        Some(value) => value,
        None => "<unknown>"@,
    }
}

/// Finds the approval policy in the configuration summary.
pub fn approval_of(entries: &[(&str, String)]) -> (approval: String)
    ensures
        approval@ == approval_text(entries@),
{
    match find_value(entries, "approval") {
        Some(value) => value.clone(),
        None => "<unknown>".to_owned(),
    }
}

/// The sandbox that commands run in.
#[derive(Clone, Copy, Debug, PartialEq, Eq, Structural)]
pub enum SandboxKind {
    DangerFullAccess,
    ReadOnly,
    WorkspaceWrite,
    ExternalSandbox { network_enabled: bool },
}

/// The name of a sandbox in the report.
pub open spec fn sandbox_text(kind: SandboxKind) -> Seq<char> {
    match kind {
        SandboxKind::DangerFullAccess => "danger-full-access"@,
        SandboxKind::ReadOnly => "read-only"@,
        SandboxKind::WorkspaceWrite => "workspace-write"@,
        SandboxKind::ExternalSandbox { network_enabled } => if network_enabled {
            "external-sandbox (network access enabled)"@
        } else {
            "external-sandbox"@
        },
    }
}

/// Names a sandbox.
pub fn sandbox_label(kind: SandboxKind) -> (label: &'static str)
    ensures
        label@ == sandbox_text(kind),
{
    match kind {
        SandboxKind::DangerFullAccess => "danger-full-access",
        SandboxKind::ReadOnly => "read-only",
        SandboxKind::WorkspaceWrite => "workspace-write",
        SandboxKind::ExternalSandbox { network_enabled } => if network_enabled {
            "external-sandbox (network access enabled)"
        } else {
            "external-sandbox"
        },
    }
}

} // verus!
