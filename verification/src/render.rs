//! The text of the report: labels, token counts, window names, progress bars
//! and reset times. Nothing here reads a clock, a file or the environment.
//!
//! Three choices are made here once and hold throughout. A progress bar is
//! twenty cells wide and its filled cells show what is left of a quota, not
//! what is used. A reset instant is always written as a clock time, also
//! where it lies in the past. Shares of a quota are counted in hundredths
//! of a percent, so that every rounding is exact.

use vstd::prelude::*;
use crate::text::{
    chars_of, decimal, digit_char, push_chars, push_decimal, push_repeated, push_signed_decimal,
    push_str, repeated, signed_decimal, string_from_chars, texts,
};
use crate::usage::{CreditsSnapshot, Percent, RateLimitSnapshot, RateLimitWindow};

verus! {

/// The name of a quota window of `minutes` minutes: minutes below an hour,
/// whole hours below a day, whole days below a week, `Weekly` from a week on.
pub open spec fn duration_label(minutes: int) -> Seq<char> {
    if minutes < 60 {
        signed_decimal(minutes).push('m')
    } else if minutes < 1440 {
        decimal((minutes / 60) as nat).push('h')
    } else if minutes < 10080 {
        decimal((minutes / 1440) as nat).push('d')
    } else {
        "Weekly"@
    }
}

/// Names a quota window by its length in minutes.
pub fn format_duration_label(minutes: i64) -> (label: String)
    ensures
        label@ == duration_label(minutes as int),
{
    let mut out: Vec<char> = Vec::new();
    if minutes < 60 {
        push_signed_decimal(&mut out, minutes);
        out.push('m');
    } else if minutes < 1440 {
        push_decimal(&mut out, (minutes / 60) as u64);
        out.push('h');
    } else if minutes < 10080 {
        push_decimal(&mut out, (minutes / 1440) as u64);
        out.push('d');
    } else {
        push_str(&mut out, "Weekly");
    }
    string_from_chars(&out)
}

/// A count of tenths written with one decimal place: `452` is `45.2`.
pub open spec fn one_decimal(tenths: nat) -> Seq<char> {
    decimal(tenths / 10).push('.').push(digit_char((tenths % 10) as int))
}

/// A token count in short form. Below a thousand it is the plain numeral;
/// below a million it is the count of thousands with one decimal and `k`;
/// from a million on it is the count of millions with one decimal and `M`.
/// The decimal is rounded to the nearest tenth, a half upwards.
pub open spec fn abbreviated(tokens: nat) -> Seq<char> {
    if tokens < 1000 {
        decimal(tokens)
    } else if tokens < 1000000 {
        one_decimal((tokens + 50) / 100).push('k')
    } else {
        one_decimal((tokens + 50000) / 100000).push('M')
    }
}

/// The three tiers of the short form: the plain numeral below a thousand,
/// a count that ends in `k` below a million, one that ends in `M` from a
/// million on; and the count before the letter is never below `1.0`.
pub proof fn lemma_abbreviated_tiers(tokens: nat)
    ensures
        tokens < 1000 ==> abbreviated(tokens) == decimal(tokens),
        1000 <= tokens < 1000000 ==> abbreviated(tokens).last() == 'k' && (tokens + 50) / 100
            >= 10,
        1000000 <= tokens ==> abbreviated(tokens).last() == 'M' && (tokens + 50000) / 100000
            >= 10,
{
}

fn push_one_decimal(out: &mut Vec<char>, tenths: u64)
    ensures
        final(out)@ == old(out)@ + one_decimal(tenths as nat),
{
    push_decimal(out, tenths / 10);
    out.push('.');
    push_decimal(out, tenths % 10);
    assert(decimal((tenths % 10) as nat) == seq![digit_char((tenths % 10) as int)]);
    assert(out@ == old(out)@ + one_decimal(tenths as nat));
}

/// Writes a token count in short form.
pub fn abbreviate(tokens: u64) -> (text: String)
    ensures
        text@ == abbreviated(tokens as nat),
{
    let mut out: Vec<char> = Vec::new();
    if tokens < 1000 {
        push_decimal(&mut out, tokens);
    } else if tokens < 1000000 {
        push_one_decimal(&mut out, (tokens + 50) / 100);
        out.push('k');
    } else {
        let whole: u64 = tokens / 100000;
        let tenths: u64 = if tokens % 100000 >= 50000 {
            whole + 1
        } else {
            whole
        };
        assert(tenths == (tokens + 50000) / 100000);
        push_one_decimal(&mut out, tenths);
        out.push('M');
    }
    string_from_chars(&out)
}

/// The number of cells of a progress bar.
pub const BAR_WIDTH: u64 = 20;

/// What is left of a quota, in hundredths of a percent.
pub open spec fn percent_left(used: Percent) -> int {
    10000 - used.hundredths
}

/// The filled cells of the bar. The bar shows what is left, not what is
/// used: the count is a twentieth part of the bar for each five percent
/// left, rounded to the nearest cell, a half upwards, and never negative.
pub open spec fn bar_fill(left_hundredths: int) -> nat {
    if left_hundredths <= 0 {
        0
    } else {
        ((left_hundredths + 250) / 500) as nat
    }
}

/// The empty cells of the bar: what the filled ones leave of its width,
/// nothing where they exceed it.
pub open spec fn bar_empty(left_hundredths: int) -> nat {
    if bar_fill(left_hundredths) >= BAR_WIDTH {
        0
    } else {
        (BAR_WIDTH - bar_fill(left_hundredths)) as nat
    }
}

/// The bar in brackets: filled cells, then empty cells.
pub open spec fn bar_text(left_hundredths: int) -> Seq<char> {
    seq!['['] + repeated('\u{2588}', bar_fill(left_hundredths)) + repeated(
        '\u{2591}',
        bar_empty(left_hundredths),
    ) + seq![']']
}

/// Hundredths of a percent as whole percent, rounded to the nearest, a half
/// to the even neighbour.
pub open spec fn rounded_percent(hundredths: int) -> int {
    let whole = hundredths / 100;
    let rest = hundredths % 100;
    if rest < 50 {
        whole
    } else if rest > 50 {
        whole + 1
    } else if whole % 2 == 0 {
        whole
    } else {
        whole + 1
    }
}

/// The cells of the bar that are filled when `used` of the quota is used.
pub fn bar_fill_count(used: Percent) -> (filled: u64)
    ensures
        filled == bar_fill(percent_left(used)),
{
    let left: i128 = 10000 - (used.hundredths as i128);
    if left <= 0 {
        0
    } else {
        ((left + 250) / 500) as u64
    }
}

/// The more of a quota is left, the more cells are filled: the count never
/// falls as what is left grows.
pub proof fn lemma_bar_fill_monotonic(left_a: int, left_b: int)
    requires
        left_a <= left_b,
    ensures
        bar_fill(left_a) <= bar_fill(left_b),
{
}

/// The more of a quota is used, the fewer cells are filled.
pub proof fn lemma_bar_fill_falls_with_use(a: Percent, b: Percent)
    requires
        a.hundredths <= b.hundredths,
    ensures
        bar_fill(percent_left(a)) >= bar_fill(percent_left(b)),
{
}

/// For a share between 0 and 100 percent the filled cells stay within the
/// bar, and filled and empty cells together make its width.
pub proof fn lemma_bar_fill_within_width(used: Percent)
    requires
        0 <= used.hundredths <= 10000,
    ensures
        bar_fill(percent_left(used)) <= BAR_WIDTH,
        bar_fill(percent_left(used)) + bar_empty(percent_left(used)) == BAR_WIDTH,
{
}

/// Whatever the share, no bar has fewer cells than its width, and none has
/// a negative count of either kind.
pub proof fn lemma_bar_never_short(left_hundredths: int)
    ensures
        bar_fill(left_hundredths) + bar_empty(left_hundredths) >= BAR_WIDTH,
        bar_text(left_hundredths).len() == bar_fill(left_hundredths) + bar_empty(left_hundredths)
            + 2,
{
}

fn push_bar(out: &mut Vec<char>, used: Percent)
    ensures
        final(out)@ == old(out)@ + bar_text(percent_left(used)),
{
    let filled = bar_fill_count(used);
    let empty: u64 = if filled >= BAR_WIDTH {
        0
    } else {
        BAR_WIDTH - filled
    };
    out.push('[');
    push_repeated(out, '\u{2588}', filled);
    push_repeated(out, '\u{2591}', empty);
    out.push(']');
    assert(out@ == old(out)@ + bar_text(percent_left(used)));
}

/// The whole percent that is left when `used` of the quota is used.
pub fn percent_left_rounded(used: Percent) -> (whole: i64)
    ensures
        whole == rounded_percent(percent_left(used)),
{
    let left: i128 = 10000 - (used.hundredths as i128);
    let negative = left < 0;
    let magnitude: i128 = if negative {
        -left
    } else {
        left
    };
    let q: i128 = magnitude / 100;
    let r: i128 = magnitude % 100;
    // floor and remainder of `left` by 100
    let floor: i128 = if !negative {
        q
    } else if r == 0 {
        -q
    } else {
        -q - 1
    };
    let rest: i128 = if !negative || r == 0 {
        r
    } else {
        100 - r
    };
    assert(left == floor * 100 + rest && 0 <= rest < 100);
    assert(floor == left / 100 && rest == left % 100);
    let even = if floor >= 0 {
        floor % 2 == 0
    } else {
        (-floor) % 2 == 0
    };
    assert(even == (floor % 2 == 0));
    let rounded: i128 = if rest < 50 {
        floor
    } else if rest > 50 {
        floor + 1
    } else if even {
        floor
    } else {
        floor + 1
    };
    rounded as i64
}

/// The bar, the whole percent left and the words `% left`.
pub open spec fn bar_and_percent(used: Percent) -> Seq<char> {
    bar_text(percent_left(used)) + seq![' '] + signed_decimal(
        rounded_percent(percent_left(used)),
    ) + "% left"@
}

/// Text padded with spaces on the right to `width` characters; longer text
/// is left as it is.
pub open spec fn padded(text: Seq<char>, width: nat) -> Seq<char> {
    if text.len() >= width {
        text
    } else {
        text + repeated(' ', (width - text.len()) as nat)
    }
}

/// One line of the report: a space, the label with its colon padded to one
/// more than `label_width`, three spaces, the value.
pub open spec fn field_line(label: Seq<char>, value: Seq<char>, label_width: nat) -> Seq<char> {
    seq![' '] + padded(label.push(':'), label_width + 1) + "   "@ + value
}

/// Values stand in one column: behind a label that is no longer than the
/// label column, the value begins five characters after the column's width,
/// whatever the label.
pub proof fn lemma_values_align(label: Seq<char>, value: Seq<char>, label_width: nat)
    requires
        label.len() <= label_width,
    ensures
        field_line(label, value, label_width).len() == label_width + 5 + value.len(),
        field_line(label, value, label_width).skip(label_width as int + 5) == value,
        field_line(label, value, label_width).subrange(1, label.len() as int + 1) == label,
{
    reveal_strlit("   ");
    let head = seq![' '] + padded(label.push(':'), label_width + 1) + "   "@;
    assert(head.len() == label_width + 5);
    assert(field_line(label, value, label_width) == head + value);
    assert((head + value).skip(head.len() as int) =~= value);
    assert((head + value).subrange(1, label.len() as int + 1) =~= label);
}

fn push_field_head(out: &mut Vec<char>, label: &str, label_width: usize)
    ensures
        final(out)@ == old(out)@ + seq![' '] + padded(label@.push(':'), (label_width + 1) as nat)
            + "   "@,
{
    let name = chars_of(label);
    out.push(' ');
    push_chars(out, &name);
    out.push(':');
    let gap: usize = if name.len() >= label_width {
        0
    } else {
        label_width - name.len()
    };
    push_repeated(out, ' ', gap as u64);
    push_str(out, "   ");
    proof {
        let head = padded(label@.push(':'), (label_width + 1) as nat);
        assert(head == label@.push(':') + repeated(' ', gap as nat));
        assert(out@ == old(out)@ + seq![' '] + head + "   "@);
    }
}

/// Writes one labelled line of the report.
pub fn format_field(label: &str, value: &str, label_width: usize) -> (line: String)
    ensures
        line@ == field_line(label@, value@, label_width as nat),
{
    let mut out: Vec<char> = Vec::new();
    push_field_head(&mut out, label, label_width);
    push_str(&mut out, value);
    assert(out@ == field_line(label@, value@, label_width as nat));
    string_from_chars(&out)
}

/// The width of the label column: the length in characters of the longest
/// label, zero where there is none.
pub open spec fn widest(labels: Seq<&str>) -> nat
    decreases labels.len(),
{
    if labels.len() == 0 {
        0
    } else {
        let rest = widest(labels.drop_last());
        if labels.last()@.len() > rest {
            labels.last()@.len()
        } else {
            rest
        }
    }
}

/// Measures the label column for the labels that will be printed.
pub fn label_width(labels: &Vec<&str>) -> (width: usize)
    ensures
        width == widest(labels@),
        forall|i: int| 0 <= i < labels@.len() ==> (#[trigger] labels@[i])@.len() <= width,
        labels@.len() > 0 ==> exists|i: int| 0 <= i < labels@.len() && (#[trigger] labels@[i])@.len() == width,
        labels@.len() == 0 ==> width == 0,
{
    let mut width: usize = 0;
    let mut i: usize = 0;
    while i < labels.len()
        invariant
            i <= labels.len(),
            width == widest(labels@.take(i as int)),
            forall|j: int| 0 <= j < i ==> (#[trigger] labels@[j])@.len() <= width,
            i > 0 ==> exists|j: int| 0 <= j < i && (#[trigger] labels@[j])@.len() == width,
            i == 0 ==> width == 0,
        decreases labels.len() - i,
    {
        assert(labels@.take(i + 1).drop_last() == labels@.take(i as int));
        let len = labels[i].unicode_len();
        if len > width {
            width = len;
        }
        i += 1;
    }
    assert(labels@.take(labels@.len() as int) == labels@);
    width
}

/// A moment as the local calendar and clock show it.
#[derive(Clone, Copy, Debug, PartialEq, Eq, Structural)]
pub struct LocalTime {
    pub year: i32,
    /// Months since January: 0 to 11.
    pub month: i32,
    /// The day of the month, from 1.
    pub day: i32,
    pub hour: i32,
    pub minute: i32,
}

/// The three letters of a month counted from January as 0; `???` for a
/// number that names no month.
pub open spec fn month_abbrev(month: int) -> Seq<char> {
    if month == 0 {
        "Jan"@
    } else if month == 1 {
        "Feb"@
    } else if month == 2 {
        "Mar"@
    } else if month == 3 {
        "Apr"@
    } else if month == 4 {
        "May"@
    } else if month == 5 {
        "Jun"@
    } else if month == 6 {
        "Jul"@
    } else if month == 7 {
        "Aug"@
    } else if month == 8 {
        "Sep"@
    } else if month == 9 {
        "Oct"@
    } else if month == 10 {
        "Nov"@
    } else if month == 11 {
        "Dec"@
    } else {
        "???"@
    }
}

/// A number on at least two places, zero-padded: `07`, `42`, `-3`.
pub open spec fn two_places(n: int) -> Seq<char> {
    if 0 <= n < 10 {
        seq!['0'] + decimal(n as nat)
    } else {
        signed_decimal(n)
    }
}

/// The clock time `HH:MM` of a moment.
pub open spec fn clock_text(t: LocalTime) -> Seq<char> {
    two_places(t.hour as int) + seq![':'] + two_places(t.minute as int)
}

/// Whether two moments fall on one calendar date.
pub open spec fn same_date(a: LocalTime, b: LocalTime) -> bool {
    a.year == b.year && a.month == b.month && a.day == b.day
}

/// When a window resets, as seen at `now`: the clock time alone on the date
/// of `now`, else the clock time, ` on `, the day and the month. A reset that
/// lies in the past is written in the same way.
pub open spec fn reset_time_text(reset: LocalTime, now: LocalTime) -> Seq<char> {
    if same_date(reset, now) {
        clock_text(reset)
    } else {
        clock_text(reset) + " on "@ + signed_decimal(reset.day as int) + seq![' '] + month_abbrev(
            reset.month as int,
        )
    }
}

fn month_name(month: i32) -> (name: &'static str)
    ensures
        name@ == month_abbrev(month as int),
{
    if month == 0 {
        "Jan"
    } else if month == 1 {
        "Feb"
    } else if month == 2 {
        "Mar"
    } else if month == 3 {
        "Apr"
    } else if month == 4 {
        "May"
    } else if month == 5 {
        "Jun"
    } else if month == 6 {
        "Jul"
    } else if month == 7 {
        "Aug"
    } else if month == 8 {
        "Sep"
    } else if month == 9 {
        "Oct"
    } else if month == 10 {
        "Nov"
    } else if month == 11 {
        "Dec"
    } else {
        "???"
    }
}

fn push_two_places(out: &mut Vec<char>, n: i32)
    ensures
        final(out)@ == old(out)@ + two_places(n as int),
{
    if 0 <= n && n < 10 {
        out.push('0');
        push_decimal(out, n as u64);
        assert(out@ == old(out)@ + two_places(n as int));
    } else {
        push_signed_decimal(out, n as i64);
    }
}

fn push_reset_time(out: &mut Vec<char>, reset: &LocalTime, now: &LocalTime)
    ensures
        final(out)@ == old(out)@ + reset_time_text(*reset, *now),
{
    push_two_places(out, reset.hour);
    out.push(':');
    push_two_places(out, reset.minute);
    assert(out@ == old(out)@ + clock_text(*reset));
    if !(reset.year == now.year && reset.month == now.month && reset.day == now.day) {
        push_str(out, " on ");
        push_signed_decimal(out, reset.day as i64);
        out.push(' ');
        push_str(out, month_name(reset.month));
        assert(out@ == old(out)@ + reset_time_text(*reset, *now));
    }
}

/// Writes when a window resets, as seen at `now`.
pub fn format_reset_time(reset: &LocalTime, now: &LocalTime) -> (text: String)
    ensures
        text@ == reset_time_text(*reset, *now),
{
    let mut out: Vec<char> = Vec::new();
    push_reset_time(&mut out, reset, now);
    string_from_chars(&out)
}

/// The local times that the quota lines need: the present moment and, for
/// each window that names a reset instant, that instant.
#[derive(Clone, Copy, Debug, PartialEq, Eq, Structural)]
pub struct ResetTimes {
    pub now: LocalTime,
    pub primary: Option<LocalTime>,
    pub secondary: Option<LocalTime>,
}

/// What follows the percentage on a quota line: nothing for a window
/// without a reset instant, else ` (resets ` .. `)`.
pub open spec fn reset_suffix(window: RateLimitWindow, reset: Option<LocalTime>, now: LocalTime) -> Seq<
    char,
> {
    match (window.resets_at, reset) {
        (Some(_), Some(t)) => " (resets "@ + reset_time_text(t, now) + seq![')'],
        _ => Seq::empty(),
    }
}

/// The name of a window: that of its length, or `fallback` where the length
/// is not known.
pub open spec fn window_name(window: RateLimitWindow, fallback: Seq<char>) -> Seq<char> {
    match window.window_minutes {
        Some(minutes) => duration_label(minutes as int),
        None => fallback,
    }
}

/// The line of one quota window.
pub open spec fn window_line(
    window: RateLimitWindow,
    fallback: Seq<char>,
    reset: Option<LocalTime>,
    now: LocalTime,
    label_width: nat,
) -> Seq<char> {
    seq![' '] + padded((window_name(window, fallback) + " limit"@).push(':'), label_width + 1)
        + "   "@ + bar_and_percent(window.used_percent) + reset_suffix(window, reset, now)
}

/// Writes the line of one quota window: label, bar, percentage left, reset.
pub fn render_rate_limit_bar(
    window: &RateLimitWindow,
    fallback: &str,
    reset: Option<LocalTime>,
    now: &LocalTime,
    label_width: usize,
) -> (line: String)
    ensures
        line@ == window_line(*window, fallback@, reset, *now, label_width as nat),
{
    let mut label: Vec<char> = Vec::new();
    match window.window_minutes {
        Some(minutes) => {
            let name = format_duration_label(minutes);
            push_str(&mut label, name.as_str());
        },
        None => {
            push_str(&mut label, fallback);
        },
    }
    push_str(&mut label, " limit");
    assert(label@ == window_name(*window, fallback@) + " limit"@);
    let label_text = string_from_chars(&label);

    let mut out: Vec<char> = Vec::new();
    push_field_head(&mut out, label_text.as_str(), label_width);
    push_bar(&mut out, window.used_percent);
    out.push(' ');
    push_signed_decimal(&mut out, percent_left_rounded(window.used_percent));
    push_str(&mut out, "% left");
    let ghost before = out@;
    assert(before == seq![' '] + padded(label_text@.push(':'), (label_width + 1) as nat) + "   "@
        + bar_and_percent(window.used_percent));
    match (window.resets_at, reset) {
        (Some(_), Some(t)) => {
            push_str(&mut out, " (resets ");
            push_reset_time(&mut out, &t, now);
            out.push(')');
            assert(out@ == before + reset_suffix(*window, reset, *now));
        },
        _ => {
            assert(out@ == before + reset_suffix(*window, reset, *now));
        },
    }
    string_from_chars(&out)
}

/// The line of a window that is there, no line for one that is not.
pub open spec fn window_lines(
    window: Option<RateLimitWindow>,
    fallback: Seq<char>,
    reset: Option<LocalTime>,
    now: LocalTime,
    label_width: nat,
) -> Seq<Seq<char>> {
    match window {
        Some(w) => seq![window_line(w, fallback, reset, now, label_width)],
        None => Seq::empty(),
    }
}

/// The line of the credit balance: `Unlimited`, or the balance and the word
/// `credits`; no line without credits, nor for a limited balance that is
/// not told.
pub open spec fn credits_lines(credits: Option<CreditsSnapshot>, label_width: nat) -> Seq<Seq<char>> {
    match credits {
        Some(c) => {
            if !c.has_credits {
                Seq::empty()
            } else if c.unlimited {
                seq![field_line("Credits"@, "Unlimited"@, label_width)]
            } else {
                match c.balance {
                    Some(balance) => seq![
                        field_line("Credits"@, balance@ + " credits"@, label_width),
                    ],
                    None => Seq::empty(),
                }
            }
        },
        None => Seq::empty(),
    }
}

/// The quota lines of a snapshot: the short window, named `5h` where its
/// length is not known, the long window, named `Weekly` where its length is
/// not known, and the credits.
pub open spec fn rate_limit_lines(limits: RateLimitSnapshot, times: ResetTimes, label_width: nat) -> Seq<
    Seq<char>,
> {
    window_lines(limits.primary, "5h"@, times.primary, times.now, label_width) + window_lines(
        limits.secondary,
        "Weekly"@,
        times.secondary,
        times.now,
        label_width,
    ) + credits_lines(limits.credits, label_width)
}

/// What stands in place of the quota lines while no snapshot is known: one
/// line for each window.
pub open spec fn unavailable_lines(label_width: nat) -> Seq<Seq<char>> {
    seq![
        field_line("5h limit"@, "data not available yet"@, label_width),
        field_line("Weekly limit"@, "data not available yet"@, label_width),
    ]
}

fn push_credits_line(out: &mut Vec<String>, credits: &Option<CreditsSnapshot>, label_width: usize)
    ensures
        texts(final(out)@) == texts(old(out)@) + credits_lines(
            *credits,
            label_width as nat,
        ),
{
    let ghost before = texts(out@);
    match credits {
        Some(c) => {
            if c.has_credits {
                if c.unlimited {
                    out.push(format_field("Credits", "Unlimited", label_width));
                } else {
                    match &c.balance {
                        Some(balance) => {
                            let mut value: Vec<char> = Vec::new();
                            push_str(&mut value, balance.as_str());
                            push_str(&mut value, " credits");
                            let value_text = string_from_chars(&value);
                            out.push(format_field("Credits", value_text.as_str(), label_width));
                        },
                        None => {},
                    }
                }
            }
        },
        None => {},
    }
    assert(texts(out@) =~= before + credits_lines(*credits, label_width as nat));
}

fn push_window_line(
    out: &mut Vec<String>,
    window: &Option<RateLimitWindow>,
    fallback: &str,
    reset: Option<LocalTime>,
    now: &LocalTime,
    label_width: usize,
)
    ensures
        texts(final(out)@) == texts(old(out)@) + window_lines(
            *window,
            fallback@,
            reset,
            *now,
            label_width as nat,
        ),
{
    let ghost before = texts(out@);
    match window {
        Some(w) => {
            out.push(render_rate_limit_bar(w, fallback, reset, now, label_width));
        },
        None => {},
    }
    assert(texts(out@) =~= before + window_lines(
        *window,
        fallback@,
        reset,
        *now,
        label_width as nat,
    ));
}

/// Writes the quota lines of a snapshot, whichever source it came from.
pub fn render_rate_limits(limits: &RateLimitSnapshot, times: &ResetTimes, label_width: usize) -> (lines:
    Vec<String>)
    ensures
        texts(lines@) == rate_limit_lines(*limits, *times, label_width as nat),
{
    let mut lines: Vec<String> = Vec::new();
    assert(texts(lines@) =~= Seq::<Seq<char>>::empty());
    push_window_line(&mut lines, &limits.primary, "5h", times.primary, &times.now, label_width);
    push_window_line(
        &mut lines,
        &limits.secondary,
        "Weekly",
        times.secondary,
        &times.now,
        label_width,
    );
    push_credits_line(&mut lines, &limits.credits, label_width);
    assert(texts(lines@) =~= rate_limit_lines(*limits, *times, label_width as nat));
    lines
}

/// Writes the lines that stand in place of the quota while it is not known.
pub fn render_unavailable(label_width: usize) -> (lines: Vec<String>)
    ensures
        texts(lines@) == unavailable_lines(label_width as nat),
{
    let mut lines: Vec<String> = Vec::new();
    lines.push(format_field("5h limit", "data not available yet", label_width));
    lines.push(format_field("Weekly limit", "data not available yet", label_width));
    assert(texts(lines@) =~= unavailable_lines(label_width as nat));
    lines
}

} // verus!
