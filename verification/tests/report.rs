use codex_status::render::{LocalTime, ResetTimes};
use codex_status::report::{
    quota_step, render_quota, render_status, status_label_list, Quota, QuotaAction, QuotaEvent,
    QuotaState, StatusFields,
};
use codex_status::session::scan_lines;
use codex_status::usage::{Percent, RateLimitSnapshot, RateLimitWindow};

fn snapshot(used_hundredths: i64) -> RateLimitSnapshot {
    RateLimitSnapshot {
        primary: Some(RateLimitWindow {
            used_percent: Percent { hundredths: used_hundredths },
            window_minutes: Some(300),
            resets_at: None,
        }),
        secondary: Some(RateLimitWindow {
            used_percent: Percent { hundredths: 500 },
            window_minutes: Some(10080),
            resets_at: None,
        }),
        credits: None,
    }
}

fn times() -> ResetTimes {
    ResetTimes {
        now: LocalTime { year: 2025, month: 0, day: 13, hour: 9, minute: 5 },
        primary: None,
        secondary: None,
    }
}

fn fields() -> StatusFields {
    StatusFields {
        version: "1.2.3".to_string(),
        model: "gpt-5".to_string(),
        model_details: vec!["reasoning high".to_string(), "summaries off".to_string()],
        model_provider: None,
        directory: "~/work".to_string(),
        approval: "on-request".to_string(),
        sandbox: "read-only".to_string(),
        agents: "AGENTS.md".to_string(),
        session: Some("rollout-2025-01-13".to_string()),
    }
}

const LOG_LINE: &str = r#"{"type":"event_msg","payload":{"type":"token_count","rate_limits":{"primary":{"used_percent":1.0,"window_minutes":300},"secondary":{"used_percent":5.0,"window_minutes":10080}}}}"#;

fn discovered(session_found: bool, has_credentials: bool) -> QuotaEvent {
    QuotaEvent::Discovered { session_found, has_credentials }
}

#[test]
fn no_credentials_report_shows_log_derived_bars() {
    // no credentials, one session, the log tells rate limits
    let (state, action) = quota_step(QuotaState::Start, discovered(true, false));
    assert_eq!(state, QuotaState::ScanningLog);
    assert_eq!(action, QuotaAction::ScanLog);
    let data = scan_lines(&vec![LOG_LINE.to_string()]);
    let (state, action) = quota_step(state, QuotaEvent::LogScanned(Some(data)));
    assert_eq!(action, QuotaAction::Render);
    let quota = match state {
        QuotaState::Done(quota) => quota,
        other => panic!("unexpected {:?}", other),
    };
    assert!(matches!(quota, Quota::FromLog(_)));
    let lines = render_status(&fields(), &quota, &times());
    assert_eq!(
        lines,
        vec![
            "".to_string(),
            ">_ OpenAI Codex (v1.2.3)".to_string(),
            "".to_string(),
            "Visit https://chatgpt.com/codex/settings/usage for up-to-date".to_string(),
            "information on rate limits and credits".to_string(),
            "".to_string(),
            " Model:          gpt-5 (reasoning high, summaries off)".to_string(),
            " Directory:      ~/work".to_string(),
            " Approval:       on-request".to_string(),
            " Sandbox:        read-only".to_string(),
            " Agents.md:      AGENTS.md".to_string(),
            " Session:        rollout-2025-01-13".to_string(),
            "".to_string(),
            format!(" 5h limit:       [{}] 99% left", "\u{2588}".repeat(20)),
            format!(" Weekly limit:   [{}\u{2591}] 95% left", "\u{2588}".repeat(19)),
        ]
    );
    assert!(lines.iter().all(|line| !line.to_lowercase().contains("live")));
}

#[test]
fn live_snapshot_wins_over_stale_log() {
    let (state, action) = quota_step(QuotaState::Start, discovered(true, true));
    assert_eq!(state, QuotaState::FetchingLive);
    assert_eq!(action, QuotaAction::FetchLive);
    let (state, action) = quota_step(state, QuotaEvent::LiveFetched(Some(snapshot(4000))));
    // the report is written next; the log, which says 1 %, is not read
    assert_eq!(action, QuotaAction::Render);
    assert_eq!(state, QuotaState::Done(Quota::Live(snapshot(4000))));
    // a late answer of the log changes nothing
    let stale = scan_lines(&vec![LOG_LINE.to_string()]);
    assert_eq!(stale.rate_limits.clone().unwrap().primary.unwrap().used_percent.hundredths, 100);
    let (state, action) = quota_step(state, QuotaEvent::LogScanned(Some(stale)));
    assert_eq!(action, QuotaAction::Render);
    assert_eq!(state, QuotaState::Done(Quota::Live(snapshot(4000))));
    let quota = match state {
        QuotaState::Done(quota) => quota,
        other => panic!("unexpected {:?}", other),
    };
    let lines = render_quota(&quota, &times(), 12);
    assert_eq!(
        lines[0],
        format!(" 5h limit:       [{}{}] 60% left", "\u{2588}".repeat(12), "\u{2591}".repeat(8))
    );
}

#[test]
fn failed_fetch_falls_back_to_log() {
    let (state, _) = quota_step(QuotaState::Start, discovered(true, true));
    let (state, action) = quota_step(state, QuotaEvent::LiveFetched(None));
    assert_eq!(state, QuotaState::ScanningLog);
    assert_eq!(action, QuotaAction::ScanLog);
    let data = scan_lines(&vec![LOG_LINE.to_string()]);
    let limits = data.rate_limits.clone().unwrap();
    let (state, action) = quota_step(state, QuotaEvent::LogScanned(Some(data)));
    assert_eq!(action, QuotaAction::Render);
    assert_eq!(state, QuotaState::Done(Quota::FromLog(limits)));
}

#[test]
fn nothing_known_is_unavailable() {
    // no session at all
    let (state, action) = quota_step(QuotaState::Start, discovered(false, true));
    assert_eq!(state, QuotaState::Done(Quota::Unavailable));
    assert_eq!(action, QuotaAction::Render);
    let (state, _) = quota_step(QuotaState::Start, discovered(false, false));
    assert_eq!(state, QuotaState::Done(Quota::Unavailable));
    // the log cannot be read
    let (state, _) = quota_step(QuotaState::ScanningLog, QuotaEvent::LogScanned(None));
    assert_eq!(state, QuotaState::Done(Quota::Unavailable));
    // the log tells no rate limits
    let empty = scan_lines(&vec![]);
    let (state, _) = quota_step(QuotaState::ScanningLog, QuotaEvent::LogScanned(Some(empty)));
    assert_eq!(state, QuotaState::Done(Quota::Unavailable));
    assert_eq!(
        render_quota(&Quota::Unavailable, &times(), 12),
        vec![
            " 5h limit:       data not available yet".to_string(),
            " Weekly limit:   data not available yet".to_string(),
        ]
    );
}

#[test]
fn events_out_of_turn_end_the_search() {
    let cases = vec![
        (QuotaState::Start, QuotaEvent::LiveFetched(Some(snapshot(1)))),
        (QuotaState::Start, QuotaEvent::LogScanned(None)),
        (QuotaState::FetchingLive, discovered(true, true)),
        (QuotaState::FetchingLive, QuotaEvent::LogScanned(None)),
        (QuotaState::ScanningLog, discovered(true, true)),
        (QuotaState::ScanningLog, QuotaEvent::LiveFetched(Some(snapshot(1)))),
    ];
    for (state, event) in cases {
        let (next, action) = quota_step(state, event);
        assert_eq!(next, QuotaState::Done(Quota::Unavailable));
        assert_eq!(action, QuotaAction::Render);
    }
}

#[test]
fn source_does_not_show_in_the_lines() {
    let live = render_quota(&Quota::Live(snapshot(1234)), &times(), 12);
    let log = render_quota(&Quota::FromLog(snapshot(1234)), &times(), 12);
    assert_eq!(live, log);
    assert_eq!(live.len(), 2);
}

#[test]
fn label_list_and_width_with_provider() {
    assert_eq!(
        status_label_list(false),
        vec![
            "Model",
            "Directory",
            "Approval",
            "Sandbox",
            "Agents.md",
            "Session",
            "5h limit",
            "Weekly limit"
        ]
    );
    assert_eq!(
        status_label_list(true),
        vec![
            "Model",
            "Directory",
            "Approval",
            "Sandbox",
            "Agents.md",
            "Model provider",
            "Session",
            "5h limit",
            "Weekly limit"
        ]
    );
    let mut with_provider = fields();
    with_provider.model_provider = Some("Azure".to_string());
    with_provider.model_details = vec![];
    with_provider.session = None;
    let lines = render_status(&with_provider, &Quota::Unavailable, &times());
    assert_eq!(
        lines[6..].to_vec(),
        vec![
            " Model:            gpt-5".to_string(),
            " Model provider:   Azure".to_string(),
            " Directory:        ~/work".to_string(),
            " Approval:         on-request".to_string(),
            " Sandbox:          read-only".to_string(),
            " Agents.md:        AGENTS.md".to_string(),
            "".to_string(),
            " 5h limit:         data not available yet".to_string(),
            " Weekly limit:     data not available yet".to_string(),
        ]
    );
}

#[test]
fn log_rate_limits_render_with_window_labels() {
    let line = r#"{"type":"event_msg","payload":{"type":"token_count","rate_limits":{"primary":{"used_percent":1.0,"window_minutes":300},"secondary":{"used_percent":5.0,"window_minutes":10080}}}}"#;
    let data = scan_lines(&vec![line.to_string()]);
    let limits = data.rate_limits.unwrap();
    assert!(limits.primary.is_some());
    assert!(limits.secondary.is_some());
    let lines = render_quota(&Quota::FromLog(limits), &times(), 12);
    assert_eq!(lines.len(), 2);
    assert!(lines[0].starts_with(" 5h limit:"));
    assert!(lines[1].starts_with(" Weekly limit:"));
}
