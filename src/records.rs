//! The records the core produces and reads. Times are milliseconds since the
//! Unix epoch.

use vstd::prelude::*;

verus! {

/// One persisted screen capture.
#[derive(Debug, Clone, PartialEq, Eq)]
pub struct ScreenshotTrace {
    pub id: i64,
    pub timestamp_ms: i64,
    pub file_path: String,
    pub width: i32,
    pub height: i32,
    pub file_size: i64,
}

/// One persisted activity summary.
#[derive(Debug, Clone, PartialEq, Eq)]
pub struct Summary {
    pub id: i64,
    pub start_time_ms: i64,
    pub end_time_ms: i64,
    pub content: String,
    pub screenshot_count: i32,
    pub created_at_ms: i64,
}

/// A summary ready to be persisted; storage assigns its id and creation time.
#[derive(Debug, Clone, PartialEq, Eq)]
pub struct SummaryDraft {
    pub start_time_ms: i64,
    pub end_time_ms: i64,
    pub content: String,
    pub capture_count: u64,
}

/// One attempt at remote summarization, successful or not; storage stamps
/// it with the time of insertion.
#[derive(Debug, Clone, PartialEq, Eq)]
pub struct ApiTelemetry {
    pub model: String,
    pub endpoint: String,
    pub prompt_tokens: Option<i64>,
    pub completion_tokens: Option<i64>,
    pub total_tokens: Option<i64>,
    pub status_code: u16,
    pub success: bool,
    pub error_message: Option<String>,
    pub duration_ms: u64,
}

} // verus!
