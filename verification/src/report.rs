//! The report as a whole: where its quota comes from, in which order the
//! sources are tried, and the lines it is made of.

use vstd::prelude::*;
use crate::render::{
    field_line, format_field, label_width, rate_limit_lines, render_rate_limits,
    render_unavailable, unavailable_lines, widest, ResetTimes,
};
use crate::session::SessionData;
use crate::summary::model_value;
use crate::text::{push_joined, push_str, string_from_chars, texts};
use crate::usage::RateLimitSnapshot;

verus! {

/// The quota of a report, with the source it was taken from.
#[derive(Clone, Debug, PartialEq, Eq)]
pub enum Quota {
    /// Fetched from the service for this report.
    Live(RateLimitSnapshot),
    /// The last that the log of the latest session tells.
    FromLog(RateLimitSnapshot),
    /// Neither source gave one.
    Unavailable,
}

/// How far the search for the quota has come.
#[derive(Clone, Debug, PartialEq, Eq)]
pub enum QuotaState {
    /// Nothing is known yet.
    Start,
    /// The one live fetch is under way.
    FetchingLive,
    /// The log of the latest session is being read.
    ScanningLog,
    /// The search is over.
    Done(Quota),
}

/// What the caller found out by doing what it was asked to.
#[derive(Clone, Debug, PartialEq, Eq)]
pub enum QuotaEvent {
    /// Session discovery and the credential store have answered.
    Discovered { session_found: bool, has_credentials: bool },
    /// The live fetch has ended: with a snapshot, or without one for any
    /// reason at all.
    LiveFetched(Option<RateLimitSnapshot>),
    /// The log has been read to its end, or could not be read.
    LogScanned(Option<SessionData>),
}

/// What the caller is asked to do next.
#[derive(Clone, Copy, Debug, PartialEq, Eq, Structural)]
pub enum QuotaAction {
    /// Fetch the rate limits from the service, once.
    FetchLive,
    /// Read the log of the latest session.
    ScanLog,
    /// Write the report.
    Render,
}

/// The quota that a log yields: its rate limits where it tells any.
pub open spec fn quota_of_log(scanned: Option<SessionData>) -> Quota {
    match scanned {
        Some(data) => match data.rate_limits {
            Some(limits) => Quota::FromLog(limits),
            None => Quota::Unavailable,
        },
        None => Quota::Unavailable,
    }
}

/// The policy, step by step.
///
/// With a session and credentials the live fetch is tried, once. Its
/// snapshot is the quota, and the log is not read then. Without
/// credentials, or when the fetch gave nothing, the log of the latest
/// session is read and its rate limits are the quota. Without a session,
/// and when the log tells no rate limits or cannot be read, the quota is
/// unavailable. An event that comes out of turn ends the search without a
/// quota. Nothing changes once the search is over.
pub open spec fn quota_next(state: QuotaState, event: QuotaEvent) -> (QuotaState, QuotaAction) {
    match (state, event) {
        (QuotaState::Done(quota), _) => (QuotaState::Done(quota), QuotaAction::Render),
        (QuotaState::Start, QuotaEvent::Discovered { session_found, has_credentials }) => {
            if session_found && has_credentials {
                (QuotaState::FetchingLive, QuotaAction::FetchLive)
            } else if session_found {
                (QuotaState::ScanningLog, QuotaAction::ScanLog)
            } else {
                (QuotaState::Done(Quota::Unavailable), QuotaAction::Render)
            }
        },
        (QuotaState::FetchingLive, QuotaEvent::LiveFetched(Some(limits))) => (
            QuotaState::Done(Quota::Live(limits)),
            QuotaAction::Render,
        ),
        (QuotaState::FetchingLive, QuotaEvent::LiveFetched(None)) => (
            QuotaState::ScanningLog,
            QuotaAction::ScanLog,
        ),
        (QuotaState::ScanningLog, QuotaEvent::LogScanned(scanned)) => (
            QuotaState::Done(quota_of_log(scanned)),
            QuotaAction::Render,
        ),
        _ => (QuotaState::Done(Quota::Unavailable), QuotaAction::Render),
    }
}

/// Takes one step of the policy: the state after `event`, and what to do
/// next.
pub fn quota_step(state: QuotaState, event: QuotaEvent) -> (next: (QuotaState, QuotaAction))
    ensures
        next == quota_next(state, event),
{
    match (state, event) {
        (QuotaState::Done(quota), _) => (QuotaState::Done(quota), QuotaAction::Render),
        (QuotaState::Start, QuotaEvent::Discovered { session_found, has_credentials }) => {
            if session_found && has_credentials {
                (QuotaState::FetchingLive, QuotaAction::FetchLive)
            } else if session_found {
                (QuotaState::ScanningLog, QuotaAction::ScanLog)
            } else {
                (QuotaState::Done(Quota::Unavailable), QuotaAction::Render)
            }
        },
        (QuotaState::FetchingLive, QuotaEvent::LiveFetched(Some(limits))) => (
            QuotaState::Done(Quota::Live(limits)),
            QuotaAction::Render,
        ),
        (QuotaState::FetchingLive, QuotaEvent::LiveFetched(None)) => (
            QuotaState::ScanningLog,
            QuotaAction::ScanLog,
        ),
        (QuotaState::ScanningLog, QuotaEvent::LogScanned(scanned)) => {
            let quota = match scanned {
                Some(data) => match data.rate_limits {
                    Some(limits) => Quota::FromLog(limits),
                    None => Quota::Unavailable,
                },
                None => Quota::Unavailable,
            };
            (QuotaState::Done(quota), QuotaAction::Render)
        },
        _ => (QuotaState::Done(Quota::Unavailable), QuotaAction::Render),
    }
}

/// The quota that the policy ends with when every source answers as given:
/// `live` is what a fetch would bring, `scanned` what reading the log would.
pub open spec fn quota_outcome(
    session_found: bool,
    has_credentials: bool,
    live: Option<RateLimitSnapshot>,
    scanned: Option<SessionData>,
) -> Quota {
    if !session_found {
        Quota::Unavailable
    } else if has_credentials && live is Some {
        Quota::Live(live->0)
    } else {
        quota_of_log(scanned)
    }
}

/// A live snapshot is the quota whatever the log holds, and the log is not
/// even read: the step that follows the fetch is to write the report.
pub proof fn lemma_live_snapshot_is_preferred(limits: RateLimitSnapshot)
    ensures
        quota_next(
            QuotaState::Start,
            QuotaEvent::Discovered { session_found: true, has_credentials: true },
        ) == (QuotaState::FetchingLive, QuotaAction::FetchLive),
        quota_next(QuotaState::FetchingLive, QuotaEvent::LiveFetched(Some(limits))) == (
            QuotaState::Done(Quota::Live(limits)),
            QuotaAction::Render,
        ),
        forall|scanned: Option<SessionData>|
            #[trigger] quota_outcome(true, true, Some(limits), scanned) == Quota::Live(limits),
{
}

/// Without credentials no fetch is asked for: with a session the log is
/// read at once, and its rate limits are the quota, marked as the log's.
pub proof fn lemma_log_is_the_fallback(data: SessionData, limits: RateLimitSnapshot)
    requires
        data.rate_limits == Some(limits),
    ensures
        quota_next(
            QuotaState::Start,
            QuotaEvent::Discovered { session_found: true, has_credentials: false },
        ) == (QuotaState::ScanningLog, QuotaAction::ScanLog),
        quota_next(QuotaState::ScanningLog, QuotaEvent::LogScanned(Some(data))) == (
            QuotaState::Done(Quota::FromLog(limits)),
            QuotaAction::Render,
        ),
        forall|live: Option<RateLimitSnapshot>|
            #[trigger] quota_outcome(true, false, live, Some(data)) == Quota::FromLog(limits),
{
}

/// A fetch that gave nothing is not repeated: the log is read next.
pub proof fn lemma_failed_fetch_falls_back(scanned: Option<SessionData>)
    ensures
        quota_next(QuotaState::FetchingLive, QuotaEvent::LiveFetched(None)) == (
            QuotaState::ScanningLog,
            QuotaAction::ScanLog,
        ),
        quota_outcome(true, true, None, scanned) == quota_of_log(scanned),
{
}

/// A fetch is asked for at the start only, and only with a session and
/// credentials: so at most once in any run.
pub proof fn lemma_fetch_only_at_start(state: QuotaState, event: QuotaEvent)
    requires
        quota_next(state, event).1 == QuotaAction::FetchLive,
    ensures
        state == QuotaState::Start,
        event == (QuotaEvent::Discovered { session_found: true, has_credentials: true }),
        quota_next(state, event).0 == QuotaState::FetchingLive,
{
}

/// Following the steps from the start, with every source answering as
/// given, ends with the quota that `quota_outcome` names, after at most
/// three events.
pub proof fn lemma_steps_reach_outcome(
    session_found: bool,
    has_credentials: bool,
    live: Option<RateLimitSnapshot>,
    scanned: Option<SessionData>,
)
    ensures
        ({
            let first = quota_next(
                QuotaState::Start,
                QuotaEvent::Discovered { session_found, has_credentials },
            );
            let second = match first.1 {
                QuotaAction::FetchLive => quota_next(first.0, QuotaEvent::LiveFetched(live)),
                QuotaAction::ScanLog => quota_next(first.0, QuotaEvent::LogScanned(scanned)),
                QuotaAction::Render => first,
            };
            let third = match second.1 {
                QuotaAction::FetchLive => quota_next(second.0, QuotaEvent::LiveFetched(live)),
                QuotaAction::ScanLog => quota_next(second.0, QuotaEvent::LogScanned(scanned)),
                QuotaAction::Render => second,
            };
            third == (
                QuotaState::Done(quota_outcome(session_found, has_credentials, live, scanned)),
                QuotaAction::Render,
            )
        }),
{
}

/// The quota lines of a report. A live snapshot and one from the log are
/// written alike; without one, the placeholder stands for each window.
pub open spec fn quota_lines(quota: Quota, times: ResetTimes, label_width: nat) -> Seq<Seq<char>> {
    match quota {
        Quota::Live(limits) => rate_limit_lines(limits, times, label_width),
        Quota::FromLog(limits) => rate_limit_lines(limits, times, label_width),
        Quota::Unavailable => unavailable_lines(label_width),
    }
}

/// Writes the quota lines of a report.
pub fn render_quota(quota: &Quota, times: &ResetTimes, label_width: usize) -> (lines: Vec<String>)
    ensures
        texts(lines@) == quota_lines(*quota, *times, label_width as nat),
{
    match quota {
        Quota::Live(limits) => render_rate_limits(limits, times, label_width),
        Quota::FromLog(limits) => render_rate_limits(limits, times, label_width),
        Quota::Unavailable => render_unavailable(label_width),
    }
}

/// The lines do not tell which source a snapshot came from.
pub proof fn lemma_source_does_not_show(limits: RateLimitSnapshot, times: ResetTimes, label_width: nat)
    ensures
        quota_lines(Quota::Live(limits), times, label_width) == quota_lines(
            Quota::FromLog(limits),
            times,
            label_width,
        ),
{
}

/// The labels by which the label column is measured: those of the fields
/// that every report has, `Model provider` where the report names one, and
/// those of the session and of the two quota windows.
pub open spec fn status_labels(with_provider: bool) -> Seq<&'static str> {
    if with_provider {
        seq![
            "Model",
            "Directory",
            "Approval",
            "Sandbox",
            "Agents.md",
            "Model provider",
            "Session",
            "5h limit",
            "Weekly limit",
        ]
    } else {
        seq![
            "Model",
            "Directory",
            "Approval",
            "Sandbox",
            "Agents.md",
            "Session",
            "5h limit",
            "Weekly limit",
        ]
    }
}

/// The label column is fourteen characters wide where the report names a
/// model provider, twelve where it does not.
pub proof fn lemma_status_label_width()
    ensures
        widest(status_labels(true)) == 14,
        widest(status_labels(false)) == 12,
{
    reveal_strlit("Model");
    reveal_strlit("Directory");
    reveal_strlit("Approval");
    reveal_strlit("Sandbox");
    reveal_strlit("Agents.md");
    reveal_strlit("Model provider");
    reveal_strlit("Session");
    reveal_strlit("5h limit");
    reveal_strlit("Weekly limit");
    reveal_with_fuel(widest, 10);
    let with = status_labels(true);
    assert(with.drop_last() =~= seq![
        "Model",
        "Directory",
        "Approval",
        "Sandbox",
        "Agents.md",
        "Model provider",
        "Session",
        "5h limit",
    ]);
    assert(with.drop_last().drop_last() =~= seq![
        "Model",
        "Directory",
        "Approval",
        "Sandbox",
        "Agents.md",
        "Model provider",
        "Session",
    ]);
    assert(with.drop_last().drop_last().drop_last() =~= seq![
        "Model",
        "Directory",
        "Approval",
        "Sandbox",
        "Agents.md",
        "Model provider",
    ]);
    let five = seq!["Model", "Directory", "Approval", "Sandbox", "Agents.md"];
    assert(with.drop_last().drop_last().drop_last().drop_last() =~= five);
    assert(five.drop_last() =~= seq!["Model", "Directory", "Approval", "Sandbox"]);
    assert(five.drop_last().drop_last() =~= seq!["Model", "Directory", "Approval"]);
    assert(five.drop_last().drop_last().drop_last() =~= seq!["Model", "Directory"]);
    assert(five.drop_last().drop_last().drop_last().drop_last() =~= seq!["Model"]);
    assert(five.drop_last().drop_last().drop_last().drop_last().drop_last() =~= Seq::<
        &'static str,
    >::empty());
    assert(widest(five) == 9);
    let without = status_labels(false);
    assert(without.drop_last() =~= seq![
        "Model",
        "Directory",
        "Approval",
        "Sandbox",
        "Agents.md",
        "Session",
        "5h limit",
    ]);
    assert(without.drop_last().drop_last() =~= seq![
        "Model",
        "Directory",
        "Approval",
        "Sandbox",
        "Agents.md",
        "Session",
    ]);
    assert(without.drop_last().drop_last().drop_last() =~= five);
}

/// Lists the labels by which the label column is measured.
pub fn status_label_list(with_provider: bool) -> (labels: Vec<&'static str>)
    ensures
        labels@ == status_labels(with_provider),
{
    let mut labels: Vec<&'static str> = Vec::new();
    labels.push("Model");
    labels.push("Directory");
    labels.push("Approval");
    labels.push("Sandbox");
    labels.push("Agents.md");
    if with_provider {
        labels.push("Model provider");
    }
    labels.push("Session");
    labels.push("5h limit");
    labels.push("Weekly limit");
    assert(labels@ =~= status_labels(with_provider));
    labels
}

/// What the report shows apart from the quota.
#[derive(Clone, Debug, PartialEq, Eq)]
pub struct StatusFields {
    pub version: String,
    pub model: String,
    pub model_details: Vec<String>,
    pub model_provider: Option<String>,
    pub directory: String,
    pub approval: String,
    pub sandbox: String,
    pub agents: String,
    pub session: Option<String>,
}

/// The banner on top of the report.
pub open spec fn banner(version: Seq<char>) -> Seq<Seq<char>> {
    seq![
        Seq::empty(),
        ">_ OpenAI Codex (v"@ + version + seq![')'],
        Seq::empty(),
        "Visit https://chatgpt.com/codex/settings/usage for up-to-date"@,
        "information on rate limits and credits"@,
        Seq::empty(),
    ]
}

/// A field that is there, no line for one that is not.
pub open spec fn optional_field(label: Seq<char>, value: Option<String>, label_width: nat) -> Seq<
    Seq<char>,
> {
    match value {
        Some(text) => seq![field_line(label, text@, label_width)],
        None => Seq::empty(),
    }
}

/// The width of the label column of a report with these fields.
pub open spec fn status_width(fields: StatusFields) -> nat {
    widest(status_labels(fields.model_provider is Some))
}

/// The report, line by line: the banner; the model, the provider where one
/// is named, the directory, the approval policy, the sandbox, the project
/// notes, the session where one was found; an empty line; the quota.
pub open spec fn status_lines(fields: StatusFields, quota: Quota, times: ResetTimes) -> Seq<Seq<char>> {
    let width = status_width(fields);
    banner(fields.version@) + seq![
        field_line("Model"@, model_value(fields.model@, texts(fields.model_details@)), width),
    ] + optional_field("Model provider"@, fields.model_provider, width) + seq![
        field_line("Directory"@, fields.directory@, width),
        field_line("Approval"@, fields.approval@, width),
        field_line("Sandbox"@, fields.sandbox@, width),
        field_line("Agents.md"@, fields.agents@, width),
    ] + optional_field("Session"@, fields.session, width) + seq![Seq::empty()] + quota_lines(
        quota,
        times,
        width,
    )
}

fn push_optional_field(out: &mut Vec<String>, label: &str, value: &Option<String>, label_width: usize)
    ensures
        texts(final(out)@) == texts(old(out)@) + optional_field(label@, *value, label_width as nat),
{
    let ghost before = texts(out@);
    match value {
        Some(text) => {
            out.push(format_field(label, text.as_str(), label_width));
        },
        None => {},
    }
    assert(texts(out@) =~= before + optional_field(label@, *value, label_width as nat));
}

fn push_line(out: &mut Vec<String>, line: String)
    ensures
        texts(final(out)@) == texts(old(out)@).push(line@),
{
    out.push(line);
    assert(texts(out@) =~= texts(old(out)@).push(line@));
}

fn format_model_value(model: &str, details: &Vec<String>) -> (value: String)
    ensures
        value@ == model_value(model@, texts(details@)),
{
    let mut out: Vec<char> = Vec::new();
    push_str(&mut out, model);
    if details.len() > 0 {
        push_str(&mut out, " (");
        push_joined(&mut out, details, ", ");
        out.push(')');
    }
    assert(out@ == model_value(model@, texts(details@)));
    string_from_chars(&out)
}

/// Writes the report.
pub fn render_status(fields: &StatusFields, quota: &Quota, times: &ResetTimes) -> (lines: Vec<String>)
    ensures
        texts(lines@) == status_lines(*fields, *quota, *times),
{
    let labels = status_label_list(fields.model_provider.is_some());
    let width = label_width(&labels);

    let mut title: Vec<char> = Vec::new();
    push_str(&mut title, ">_ OpenAI Codex (v");
    push_str(&mut title, fields.version.as_str());
    title.push(')');
    assert(title@ == ">_ OpenAI Codex (v"@ + fields.version@ + seq![')']);

    let mut lines: Vec<String> = Vec::new();
    assert(texts(lines@) =~= Seq::<Seq<char>>::empty());
    push_line(&mut lines, String::new());
    push_line(&mut lines, string_from_chars(&title));
    push_line(&mut lines, String::new());
    push_line(
        &mut lines,
        "Visit https://chatgpt.com/codex/settings/usage for up-to-date".to_owned(),
    );
    push_line(&mut lines, "information on rate limits and credits".to_owned());
    push_line(&mut lines, String::new());
    assert(texts(lines@) =~= banner(fields.version@));

    let model = format_model_value(fields.model.as_str(), &fields.model_details);
    push_line(&mut lines, format_field("Model", model.as_str(), width));
    push_optional_field(&mut lines, "Model provider", &fields.model_provider, width);
    push_line(&mut lines, format_field("Directory", fields.directory.as_str(), width));
    push_line(&mut lines, format_field("Approval", fields.approval.as_str(), width));
    push_line(&mut lines, format_field("Sandbox", fields.sandbox.as_str(), width));
    push_line(&mut lines, format_field("Agents.md", fields.agents.as_str(), width));
    push_optional_field(&mut lines, "Session", &fields.session, width);
    push_line(&mut lines, String::new());
    let ghost head = texts(lines@);
    let mut quota_part = render_quota(quota, times, width);
    lines.append(&mut quota_part);
    assert(texts(lines@) =~= head + quota_lines(*quota, *times, width as nat));
    assert(texts(lines@) =~= status_lines(*fields, *quota, *times));
    lines
}

} // verus!
