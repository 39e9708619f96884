use clarity::assembler::{concat_list, frame_paths};
use clarity::cycle::{
    cycle_records, plan_frames, summary_tick, timestamp_span, CycleOutcome, SkipReason,
    SummaryTimer, TickAction,
};
use clarity::records::ScreenshotTrace;
use clarity::remote::{finish_generation, ApiRequestResult, ClientError};

const BASE: i64 = 1_704_067_200_000;

fn trace(id: i64, ts: i64) -> ScreenshotTrace {
    ScreenshotTrace {
        id,
        timestamp_ms: ts,
        file_path: format!("/rec/{}.jpg", id),
        width: 1920,
        height: 1080,
        file_size: 1000 + id,
    }
}

fn ok_result(content: &str) -> ApiRequestResult {
    ApiRequestResult {
        content: content.to_string(),
        prompt_tokens: Some(120),
        completion_tokens: Some(30),
        total_tokens: Some(150),
        status_code: 200,
        duration_ms: 812,
    }
}

#[test]
fn frames_follow_timestamps_whatever_the_retrieval_order() {
    let desc: Vec<ScreenshotTrace> = (0..6).rev().map(|i| trace(i, BASE + i * 1000)).collect();
    let mixed: Vec<ScreenshotTrace> =
        [3, 0, 5, 1, 4, 2].iter().map(|&i| trace(i, BASE + i * 1000)).collect();
    let a = plan_frames(desc, BASE);
    let b = plan_frames(mixed, BASE);
    let ta: Vec<i64> = a.iter().map(|t| t.timestamp_ms).collect();
    let tb: Vec<i64> = b.iter().map(|t| t.timestamp_ms).collect();
    assert_eq!(ta, (0..6).map(|i| BASE + i * 1000).collect::<Vec<_>>());
    assert_eq!(ta, tb);
}

#[test]
fn window_excludes_older_captures() {
    let recs = vec![trace(1, BASE - 1), trace(2, BASE), trace(3, BASE + 7)];
    let f = plan_frames(recs, BASE);
    assert_eq!(f.iter().map(|t| t.id).collect::<Vec<_>>(), vec![2, 3]);
    assert!(plan_frames(vec![trace(1, BASE - 10)], BASE).is_empty());
}

#[test]
fn summary_spans_earliest_to_latest_capture() {
    let frames = vec![trace(1, BASE + 9000), trace(2, BASE + 2000), trace(3, BASE + 5000)];
    assert_eq!(timestamp_span(&frames), (BASE + 2000, BASE + 9000));
    let r = cycle_records(&frames, "m", CycleOutcome::Summarized { result: ok_result("x") });
    let d = r.summary.unwrap();
    assert!(d.start_time_ms <= d.end_time_ms);
    assert_eq!(d.start_time_ms, BASE + 2000);
    assert_eq!(d.end_time_ms, BASE + 9000);
    assert_eq!(d.capture_count, 3);
}

#[test]
fn interval_change_skips_the_detecting_tick() {
    let mut timer = SummaryTimer::new(45);
    assert_eq!(
        summary_tick(&mut timer, true, 45, true, BASE),
        TickAction::QueryWindow { start_ms: BASE - 45_000 }
    );
    assert_eq!(
        summary_tick(&mut timer, true, 60, true, BASE + 45_000),
        TickAction::RebuildTimer { interval_seconds: 60 }
    );
    assert_eq!(timer.current_interval, 60);
    assert_eq!(
        summary_tick(&mut timer, true, 60, true, BASE + 105_000),
        TickAction::QueryWindow { start_ms: BASE + 45_000 }
    );
}

#[test]
fn inactive_session_leaves_the_loop_without_touching_timer() {
    let mut timer = SummaryTimer::new(45);
    assert_eq!(summary_tick(&mut timer, false, 90, true, BASE), TickAction::Exit);
    assert_eq!(timer.current_interval, 45);
}

#[test]
fn five_captures_make_one_summary() {
    let mut timer = SummaryTimer::new(5);
    let action = summary_tick(&mut timer, true, 5, true, BASE + 5000);
    let start = match action {
        TickAction::QueryWindow { start_ms } => start_ms,
        other => panic!("unexpected {:?}", other),
    };
    assert_eq!(start, BASE);
    let stored: Vec<ScreenshotTrace> = (0..5).rev().map(|i| trace(i, BASE + i * 1000)).collect();
    let frames = plan_frames(stored, start);
    assert_eq!(frames.len(), 5);
    let paths = frame_paths(&frames);
    assert_eq!(
        paths,
        vec!["/rec/0.jpg", "/rec/1.jpg", "/rec/2.jpg", "/rec/3.jpg", "/rec/4.jpg"]
    );
    let list = concat_list(&paths, "1").unwrap();
    assert_eq!(list.matches("duration 1\n").count(), 5);
    assert!(list.ends_with("file '/rec/4.jpg'\nduration 1\nfile '/rec/4.jpg'\n"));
    let r = cycle_records(&frames, "gemini-3-flash-preview", CycleOutcome::Summarized {
        result: ok_result("coding"),
    });
    let d = r.summary.unwrap();
    assert_eq!(d.start_time_ms, BASE);
    assert_eq!(d.end_time_ms, BASE + 4000);
    assert_eq!(d.capture_count, 5);
    assert_eq!(d.content, "coding");
    let t = r.telemetry.unwrap();
    assert!(t.success);
    assert_eq!(t.status_code, 200);
    assert_eq!(t.total_tokens, Some(150));
    assert_eq!(t.duration_ms, 812);
    assert_eq!(t.model, "gemini-3-flash-preview");
    assert_eq!(t.endpoint, "https://generativelanguage.googleapis.com/v1beta/models");
    assert_eq!(t.error_message, None);
}

#[test]
fn generation_failure_records_failed_telemetry_only() {
    let frames = vec![trace(1, BASE)];
    let err = finish_generation(500, "internal".to_string(), Err("unused".to_string()), 40)
        .unwrap_err();
    assert_eq!(err, ClientError::Generation { status: 500, detail: "internal".to_string() });
    let r = cycle_records(&frames, "m1", CycleOutcome::RemoteFailed { error: err });
    assert!(r.summary.is_none());
    let t = r.telemetry.unwrap();
    assert!(!t.success);
    assert_eq!(t.status_code, 500);
    assert_eq!(t.error_message.as_deref(), Some("Gemini API error: 500 - internal"));
    assert_eq!(t.prompt_tokens, None);
    assert_eq!(t.duration_ms, 0);
    assert_eq!(t.model, "m1");
}

#[test]
fn missing_credential_skips_the_cycle() {
    let mut timer = SummaryTimer::new(45);
    assert_eq!(
        summary_tick(&mut timer, true, 45, false, BASE),
        TickAction::Skip { reason: SkipReason::NoCredential }
    );
    assert_eq!(timer.current_interval, 45);
}

#[test]
fn assembly_failure_persists_nothing() {
    let frames = vec![trace(1, BASE)];
    let r = cycle_records(&frames, "m", CycleOutcome::AssemblyFailed {
        detail: "ffmpeg failed".to_string(),
    });
    assert!(r.telemetry.is_none());
    assert!(r.summary.is_none());
}
