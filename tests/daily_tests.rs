use clarity::daily::{
    combine_summaries, computed_stats, daily_report, plan_daily_report, stored_stats,
    total_duration_seconds, DailyPlan, DailySummary,
};
use clarity::records::Summary;
use clarity::remote::ClientError;
use clarity::settings::Language;

fn summary(start: i64, end: i64, content: &str) -> Summary {
    Summary {
        id: 1,
        start_time_ms: start,
        end_time_ms: end,
        content: content.to_string(),
        screenshot_count: 3,
        created_at_ms: end,
    }
}

#[test]
fn summaries_are_joined_with_blank_lines() {
    let s = vec![summary(0, 1000, "a"), summary(0, 1000, "b"), summary(0, 1000, "c")];
    assert_eq!(combine_summaries(&s), "a\n\nb\n\nc");
    assert_eq!(combine_summaries(&vec![]), "");
}

#[test]
fn empty_day_has_fixed_report() {
    match plan_daily_report(&vec![], Language::En, true) {
        DailyPlan::Report { content } => assert_eq!(content, "No activity recorded for this day."),
        other => panic!("unexpected {:?}", other),
    }
}

#[test]
fn without_credential_report_is_concatenation() {
    let s = vec![summary(0, 1000, "a"), summary(0, 1000, "b")];
    assert_eq!(
        plan_daily_report(&s, Language::Zh, false),
        DailyPlan::Report { content: "a\n\nb".to_string() }
    );
}

#[test]
fn remote_failure_falls_back_to_concatenation() {
    let s = vec![summary(0, 1000, "a"), summary(0, 1000, "b")];
    let (prompt, fallback) = match plan_daily_report(&s, Language::En, true) {
        DailyPlan::AskRemote { prompt, fallback } => (prompt, fallback),
        other => panic!("unexpected {:?}", other),
    };
    assert!(prompt.starts_with("Based on the following activity summaries from today"));
    assert!(prompt.ends_with("Today's summaries:\na\n\nb"));
    assert_eq!(fallback, "a\n\nb");
    let err = ClientError::EmptyResponse { status: 200 };
    assert_eq!(daily_report(Err(err), fallback.clone()), "a\n\nb");
    assert_eq!(daily_report(Ok("great day".to_string()), fallback), "great day");
}

#[test]
fn durations_truncate_to_whole_seconds() {
    let s = vec![summary(0, 45_900, "a"), summary(10_000, 9_500, "b"), summary(0, 1_000, "c")];
    assert_eq!(total_duration_seconds(&s), Some(46));
    assert_eq!(total_duration_seconds(&vec![]), Some(0));
}

#[test]
fn history_prefers_stored_reports() {
    let stored = vec![DailySummary {
        id: 7,
        date: "2024-03-07".to_string(),
        content: "x".to_string(),
        screenshot_count: 300,
        summary_count: 6,
        total_duration_seconds: 270,
        created_at_ms: 0,
        updated_at_ms: 0,
    }];
    let h = stored_stats("2024-03-07", &stored).unwrap();
    assert_eq!((h.screenshot_count, h.summary_count, h.total_duration_seconds), (300, 6, 270));
    assert!(stored_stats("2024-03-08", &stored).is_none());
    let c = computed_stats("2024-03-08".to_string(), 12, &vec![summary(0, 45_000, "a")]).unwrap();
    assert_eq!(c.date, "2024-03-08");
    assert_eq!((c.screenshot_count, c.summary_count, c.total_duration_seconds), (12, 1, 45));
}
