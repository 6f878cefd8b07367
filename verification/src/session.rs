//! What a session log tells: the facts of one line, and the fold of all
//! lines in which a later fact replaces an earlier one.

use vstd::prelude::*;
use crate::json::{json_document, parse_json, Json};
use crate::text::texts;
use crate::usage::{CreditsSnapshot, Percent, RateLimitSnapshot, RateLimitWindow, TokenUsage};

verus! {

/// The facts that one line of a session log yields.
#[derive(Clone, Debug, PartialEq, Eq)]
pub struct LineFacts {
    pub usage: Option<TokenUsage>,
    pub rate_limits: Option<RateLimitSnapshot>,
}

/// A count read from the member `key`: zero where the member is missing,
/// its value where it is an integer that is not negative, a failure (none)
/// for anything else.
pub open spec fn count_member(object: Json, key: Seq<char>) -> Option<u64> {
    match object.member(key) {
        None => Some(0),
        Some(Json::Unsigned(n)) => Some(n),
        Some(_) => None,
    }
}

/// An integer that may be left out, read from the member `key`: nothing
/// where the member is missing or null, its value where it is an integer
/// within `i64`, a failure (the outer none) for anything else.
pub open spec fn optional_integer_member(object: Json, key: Seq<char>) -> Option<Option<i64>> {
    match object.member(key) {
        None => Some(None),
        Some(Json::Null) => Some(None),
        Some(Json::Unsigned(n)) => if n <= i64::MAX {
            Some(Some(n as i64))
        } else {
            None
        },
        Some(Json::Negative(i)) => Some(Some(i)),
        Some(_) => None,
    }
}

/// A text that may be left out, read from the member `key`.
pub open spec fn optional_text_member(object: Json, key: Seq<char>) -> Option<Option<String>> {
    match object.member(key) {
        None => Some(None),
        Some(Json::Null) => Some(None),
        Some(Json::Text(s)) => Some(Some(s)),
        Some(_) => None,
    }
}

/// A truth value that must be there, read from the member `key`.
pub open spec fn bool_member(object: Json, key: Seq<char>) -> Option<bool> {
    match object.member(key) {
        Some(Json::Bool(b)) => Some(b),
        _ => None,
    }
}

/// A share of a quota that must be there, read from the member `key`: any
/// number but an infinity or a NaN.
pub open spec fn percent_member(object: Json, key: Seq<char>) -> Option<Percent> {
    match object.member(key) {
        Some(Json::Unsigned(n)) => Some(Percent::of_whole(n as int)),
        Some(Json::Negative(i)) => Some(Percent::of_whole(i as int)),
        Some(Json::Real(bits)) => Percent::of_binary64(bits),
        _ => None,
    }
}

/// The token usage that an object holds: each count by its member, none as
/// soon as one member is no count, none for what is no object.
pub open spec fn usage_of(value: Json) -> Option<TokenUsage> {
    if !(value is Object) {
        None
    } else {
        match (
            count_member(value, "total_tokens"@),
            count_member(value, "input_tokens"@),
            count_member(value, "cached_input_tokens"@),
            count_member(value, "output_tokens"@),
            count_member(value, "reasoning_output_tokens"@),
        ) {
            (Some(total), Some(input), Some(cached), Some(output), Some(reasoning)) => Some(
                TokenUsage {
                    total_tokens: total,
                    input_tokens: input,
                    cached_input_tokens: cached,
                    output_tokens: output,
                    reasoning_output_tokens: reasoning,
                },
            ),
            _ => None,
        }
    }
}

/// The quota window that an object holds.
pub open spec fn window_of(value: Json) -> Option<RateLimitWindow> {
    match (
        percent_member(value, "used_percent"@),
        optional_integer_member(value, "window_minutes"@),
        optional_integer_member(value, "resets_at"@),
    ) {
        (Some(used), Some(minutes), Some(resets)) => Some(
            RateLimitWindow { used_percent: used, window_minutes: minutes, resets_at: resets },
        ),
        _ => None,
    }
}

/// The credit balance that an object holds.
pub open spec fn credits_of(value: Json) -> Option<CreditsSnapshot> {
    match (
        bool_member(value, "has_credits"@),
        bool_member(value, "unlimited"@),
        optional_text_member(value, "balance"@),
    ) {
        (Some(has), Some(unlimited), Some(balance)) => Some(
            CreditsSnapshot { has_credits: has, unlimited: unlimited, balance: balance },
        ),
        _ => None,
    }
}

/// A window that may be left out, read from the member `key`.
pub open spec fn optional_window_member(object: Json, key: Seq<char>) -> Option<
    Option<RateLimitWindow>,
> {
    match object.member(key) {
        None => Some(None),
        Some(Json::Null) => Some(None),
        Some(value) => match window_of(value) {
            Some(window) => Some(Some(window)),
            None => None,
        },
    }
}

/// A credit balance that may be left out, read from the member `key`.
pub open spec fn optional_credits_member(object: Json, key: Seq<char>) -> Option<
    Option<CreditsSnapshot>,
> {
    match object.member(key) {
        None => Some(None),
        Some(Json::Null) => Some(None),
        Some(value) => match credits_of(value) {
            Some(credits) => Some(Some(credits)),
            None => None,
        },
    }
}

/// The rate limits that an object holds: none as soon as one part of it is
/// not what it should be, none for what is no object.
pub open spec fn snapshot_of(value: Json) -> Option<RateLimitSnapshot> {
    if !(value is Object) {
        None
    } else {
        match (
            optional_window_member(value, "primary"@),
            optional_window_member(value, "secondary"@),
            optional_credits_member(value, "credits"@),
        ) {
            (Some(primary), Some(secondary), Some(credits)) => Some(
                RateLimitSnapshot { primary: primary, secondary: secondary, credits: credits },
            ),
            _ => None,
        }
    }
}

/// The payload of a document that is a token-count event: the member
/// `payload` of a document whose `type` is `event_msg`, where the `type` of
/// that payload is `token_count`.
pub open spec fn token_count_payload(doc: Json) -> Option<Json> {
    match (doc.member("type"@), doc.member("payload"@)) {
        (Some(kind), Some(payload)) => {
            if kind.text() == Some("event_msg"@) {
                match payload.member("type"@) {
                    Some(inner) => if inner.text() == Some("token_count"@) {
                        Some(payload)
                    } else {
                        None
                    },
                    None => None,
                }
            } else {
                None
            }
        },
        _ => None,
    }
}

/// The usage that the payload of a token-count event tells: what its member
/// `info` holds under `total_token_usage`.
pub open spec fn payload_usage(payload: Json) -> Option<TokenUsage> {
    match payload.member("info"@) {
        Some(info) => match info.member("total_token_usage"@) {
            Some(total) => usage_of(total),
            None => None,
        },
        None => None,
    }
}

/// The rate limits that the payload of a token-count event tells: what it
/// holds under `rate_limits`.
pub open spec fn payload_rate_limits(payload: Json) -> Option<RateLimitSnapshot> {
    match payload.member("rate_limits"@) {
        Some(limits) => snapshot_of(limits),
        None => None,
    }
}

/// No facts.
pub open spec fn no_facts() -> LineFacts {
    LineFacts { usage: None, rate_limits: None }
}

/// The facts of a document: those of its payload where it is a token-count
/// event, none else. Usage and rate limits are read independently.
pub open spec fn facts_of(doc: Json) -> LineFacts {
    match token_count_payload(doc) {
        Some(payload) => LineFacts {
            usage: payload_usage(payload),
            rate_limits: payload_rate_limits(payload),
        },
        None => no_facts(),
    }
}

/// The facts of a line of text: those of the document it is read as, none
/// where it is no document.
pub open spec fn line_facts(line: Seq<char>) -> LineFacts {
    match json_document(line) {
        Some(doc) => facts_of(doc),
        None => no_facts(),
    }
}

fn read_count(object: &Json, key: &str) -> (count: Option<u64>)
    ensures
        count == count_member(*object, key@),
{
    match object.get(key) {
        None => Some(0),
        Some(Json::Unsigned(n)) => Some(*n),
        Some(_) => None,
    }
}

fn read_optional_integer(object: &Json, key: &str) -> (value: Option<Option<i64>>)
    ensures
        value == optional_integer_member(*object, key@),
{
    match object.get(key) {
        None => Some(None),
        Some(Json::Null) => Some(None),
        Some(Json::Unsigned(n)) => {
            if *n <= 0x7fff_ffff_ffff_ffff {
                Some(Some(*n as i64))
            } else {
                None
            }
        },
        Some(Json::Negative(i)) => Some(Some(*i)),
        Some(_) => None,
    }
}

fn read_optional_text(object: &Json, key: &str) -> (value: Option<Option<String>>)
    ensures
        value == optional_text_member(*object, key@),
{
    match object.get(key) {
        None => Some(None),
        Some(Json::Null) => Some(None),
        Some(Json::Text(s)) => Some(Some(s.clone())),
        Some(_) => None,
    }
}

fn read_bool(object: &Json, key: &str) -> (value: Option<bool>)
    ensures
        value == bool_member(*object, key@),
{
    match object.get(key) {
        Some(Json::Bool(b)) => Some(*b),
        _ => None,
    }
}

fn read_percent(object: &Json, key: &str) -> (value: Option<Percent>)
    ensures
        value == percent_member(*object, key@),
{
    match object.get(key) {
        Some(Json::Unsigned(n)) => Some(Percent::from_unsigned(*n)),
        Some(Json::Negative(i)) => Some(Percent::from_whole(*i)),
        Some(Json::Real(bits)) => Percent::from_f64_bits(*bits),
        _ => None,
    }
}

/// Reads token usage from the object that holds it.
pub fn read_usage(value: &Json) -> (usage: Option<TokenUsage>)
    ensures
        usage == usage_of(*value),
{
    match value {
        Json::Object(_) => {},
        _ => {
            return None;
        },
    }
    let total = read_count(value, "total_tokens");
    let input = read_count(value, "input_tokens");
    let cached = read_count(value, "cached_input_tokens");
    let output = read_count(value, "output_tokens");
    let reasoning = read_count(value, "reasoning_output_tokens");
    match (total, input, cached, output, reasoning) {
        (Some(total), Some(input), Some(cached), Some(output), Some(reasoning)) => Some(
            TokenUsage {
                total_tokens: total,
                input_tokens: input,
                cached_input_tokens: cached,
                output_tokens: output,
                reasoning_output_tokens: reasoning,
            },
        ),
        _ => None,
    }
}

fn read_window(value: &Json) -> (window: Option<RateLimitWindow>)
    ensures
        window == window_of(*value),
{
    let used = read_percent(value, "used_percent");
    let minutes = read_optional_integer(value, "window_minutes");
    let resets = read_optional_integer(value, "resets_at");
    match (used, minutes, resets) {
        (Some(used), Some(minutes), Some(resets)) => Some(
            RateLimitWindow { used_percent: used, window_minutes: minutes, resets_at: resets },
        ),
        _ => None,
    }
}

fn read_credits(value: &Json) -> (credits: Option<CreditsSnapshot>)
    ensures
        credits == credits_of(*value),
{
    let has = read_bool(value, "has_credits");
    let unlimited = read_bool(value, "unlimited");
    let balance = read_optional_text(value, "balance");
    match (has, unlimited, balance) {
        (Some(has), Some(unlimited), Some(balance)) => Some(
            CreditsSnapshot { has_credits: has, unlimited: unlimited, balance: balance },
        ),
        _ => None,
    }
}

fn read_optional_window(object: &Json, key: &str) -> (window: Option<Option<RateLimitWindow>>)
    ensures
        window == optional_window_member(*object, key@),
{
    match object.get(key) {
        None => Some(None),
        Some(Json::Null) => Some(None),
        Some(value) => match read_window(value) {
            Some(window) => Some(Some(window)),
            None => None,
        },
    }
}

fn read_optional_credits(object: &Json, key: &str) -> (credits: Option<Option<CreditsSnapshot>>)
    ensures
        credits == optional_credits_member(*object, key@),
{
    match object.get(key) {
        None => Some(None),
        Some(Json::Null) => Some(None),
        Some(value) => match read_credits(value) {
            Some(credits) => Some(Some(credits)),
            None => None,
        },
    }
}

/// Reads rate limits from the object that holds them.
pub fn read_rate_limits(value: &Json) -> (limits: Option<RateLimitSnapshot>)
    ensures
        limits == snapshot_of(*value),
{
    match value {
        Json::Object(_) => {},
        _ => {
            return None;
        },
    }
    let primary = read_optional_window(value, "primary");
    let secondary = read_optional_window(value, "secondary");
    let credits = read_optional_credits(value, "credits");
    match (primary, secondary, credits) {
        (Some(primary), Some(secondary), Some(credits)) => Some(
            RateLimitSnapshot { primary: primary, secondary: secondary, credits: credits },
        ),
        _ => None,
    }
}

fn find_token_count_payload(doc: &Json) -> (payload: Option<&Json>)
    ensures
        match payload {
            Some(p) => token_count_payload(*doc) == Some(*p),
            None => token_count_payload(*doc) is None,
        },
{
    match (doc.get("type"), doc.get("payload")) {
        (Some(kind), Some(payload)) => {
            if kind.is_text("event_msg") {
                match payload.get("type") {
                    Some(inner) => if inner.is_text("token_count") {
                        Some(payload)
                    } else {
                        None
                    },
                    None => None,
                }
            } else {
                None
            }
        },
        _ => None,
    }
}

/// Draws the facts out of one document of the log.
pub fn extract_from_json(doc: &Json) -> (facts: LineFacts)
    ensures
        facts == facts_of(*doc),
{
    match find_token_count_payload(doc) {
        Some(payload) => {
            let usage = match payload.get("info") {
                Some(info) => match info.get("total_token_usage") {
                    Some(total) => read_usage(total),
                    None => None,
                },
                None => None,
            };
            let rate_limits = match payload.get("rate_limits") {
                Some(limits) => read_rate_limits(limits),
                None => None,
            };
            LineFacts { usage: usage, rate_limits: rate_limits }
        },
        None => LineFacts { usage: None, rate_limits: None },
    }
}

/// Draws the facts out of one line of the log. A line that is no JSON
/// document, or no token-count event, yields none and is no failure.
pub fn extract_line(line: &str) -> (facts: LineFacts)
    ensures
        facts == line_facts(line@),
{
    match parse_json(line) {
        Some(doc) => extract_from_json(&doc),
        None => LineFacts { usage: None, rate_limits: None },
    }
}

/// What a session log has told so far.
#[derive(Clone, Debug, PartialEq, Eq)]
pub struct SessionData {
    pub token_usage: Option<TokenUsage>,
    pub rate_limits: Option<RateLimitSnapshot>,
}

impl SessionData {
    /// What a log tells before its first line.
    pub open spec fn nothing() -> SessionData {
        SessionData { token_usage: None, rate_limits: None }
    }

    /// This data after one more line: a fact of the line replaces the one
    /// held, and what the line does not tell stays. Usage and rate limits
    /// go each their own way.
    pub open spec fn updated(self, facts: LineFacts) -> SessionData {
        SessionData {
            token_usage: if facts.usage is Some {
                facts.usage
            } else {
                self.token_usage
            },
            rate_limits: if facts.rate_limits is Some {
                facts.rate_limits
            } else {
                self.rate_limits
            },
        }
    }

    /// The data of a log of which nothing is read yet.
    pub fn new() -> (data: SessionData)
        ensures
            data == SessionData::nothing(),
    {
        SessionData { token_usage: None, rate_limits: None }
    }

    /// Takes in the facts of the next line.
    pub fn absorb(&mut self, facts: LineFacts)
        ensures
            *final(self) == old(self).updated(facts),
    {
        let LineFacts { usage, rate_limits } = facts;
        if usage.is_some() {
            self.token_usage = usage;
        }
        if rate_limits.is_some() {
            self.rate_limits = rate_limits;
        }
    }

    /// Takes in the next line of the log.
    pub fn absorb_line(&mut self, line: &str)
        ensures
            *final(self) == old(self).updated(line_facts(line@)),
    {
        let facts = extract_line(line);
        self.absorb(facts);
    }
}

/// What a log of these lines tells, read from the first line to the last.
pub open spec fn scanned(lines: Seq<Seq<char>>) -> SessionData
    decreases lines.len(),
{
    if lines.len() == 0 {
        SessionData::nothing()
    } else {
        scanned(lines.drop_last()).updated(line_facts(lines.last()))
    }
}

/// Reads a log that is held as a list of lines, oldest first.
pub fn scan_lines(lines: &Vec<String>) -> (data: SessionData)
    ensures
        data == scanned(texts(lines@)),
{
    let mut data = SessionData::new();
    let mut i: usize = 0;
    assert(texts(lines@).take(0) =~= Seq::<Seq<char>>::empty());
    while i < lines.len()
        invariant
            i <= lines.len(),
            data == scanned(texts(lines@).take(i as int)),
        decreases lines.len() - i,
    {
        assert(texts(lines@).take(i + 1).drop_last() =~= texts(lines@).take(i as int));
        assert(texts(lines@).take(i + 1).last() == lines@[i as int]@);
        data.absorb_line(lines[i].as_str());
        i += 1;
    }
    assert(texts(lines@).take(lines@.len() as int) =~= texts(lines@));
    data
}

/// The usage that a log tells is that of its last line that tells one.
pub proof fn lemma_last_usage_wins(lines: Seq<Seq<char>>, last: int)
    requires
        0 <= last < lines.len(),
        line_facts(lines[last]).usage is Some,
        forall|j: int| last < j < lines.len() ==> (#[trigger] line_facts(lines[j])).usage is None,
    ensures
        scanned(lines).token_usage == line_facts(lines[last]).usage,
    decreases lines.len(),
{
    if last < lines.len() - 1 {
        lemma_last_usage_wins(lines.drop_last(), last);
    }
}

/// The rate limits that a log tells are those of its last line that tells
/// any.
pub proof fn lemma_last_rate_limits_win(lines: Seq<Seq<char>>, last: int)
    requires
        0 <= last < lines.len(),
        line_facts(lines[last]).rate_limits is Some,
        forall|j: int|
            last < j < lines.len() ==> (#[trigger] line_facts(lines[j])).rate_limits is None,
    ensures
        scanned(lines).rate_limits == line_facts(lines[last]).rate_limits,
    decreases lines.len(),
{
    if last < lines.len() - 1 {
        lemma_last_rate_limits_win(lines.drop_last(), last);
    }
}

/// A log of which no line tells a usage tells none; so does an empty log.
pub proof fn lemma_no_usage(lines: Seq<Seq<char>>)
    requires
        forall|j: int| 0 <= j < lines.len() ==> (#[trigger] line_facts(lines[j])).usage is None,
    ensures
        scanned(lines).token_usage is None,
    decreases lines.len(),
{
    if lines.len() > 0 {
        lemma_no_usage(lines.drop_last());
    }
}

/// A log of which no line tells rate limits tells none; so does an empty
/// log.
pub proof fn lemma_no_rate_limits(lines: Seq<Seq<char>>)
    requires
        forall|j: int|
            0 <= j < lines.len() ==> (#[trigger] line_facts(lines[j])).rate_limits is None,
    ensures
        scanned(lines).rate_limits is None,
    decreases lines.len(),
{
    if lines.len() > 0 {
        lemma_no_rate_limits(lines.drop_last());
    }
}

/// A line that is no JSON document changes nothing.
pub proof fn lemma_malformed_line_is_skipped(data: SessionData, line: Seq<char>)
    ensures
        json_document(line) is None ==> data.updated(line_facts(line)) == data,
{
}

} // verus!
