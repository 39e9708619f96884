//! Session controller: the active flag, the capture counter and the storage
//! location, and the decisions of the capture loop.

use vstd::prelude::*;

verus! {

/// What the controller reports to its callers.
#[derive(Debug, Clone, PartialEq, Eq)]
pub struct ScreenshotStatus {
    pub is_recording: bool,
    pub screenshots_count: u64,
    pub storage_path: String,
}

/// Why a controller operation was refused.
#[derive(Debug, Clone, Copy, PartialEq, Eq, Structural)]
pub enum RecordingError {
    /// `start` was called while a session is running.
    AlreadyActive,
    /// `stop` was called while no session is running.
    NotActive,
}

/// The shared session state owned by the controller.
#[derive(Debug)]
pub struct SessionState {
    pub is_active: bool,
    pub capture_count: u64,
    pub storage_path: String,
}

/// What the capture loop does on a tick.
#[derive(Debug, Clone, Copy, PartialEq, Eq, Structural)]
pub enum CaptureAction {
    /// The session is no longer active: leave the loop.
    Exit,
    /// Take one capture, numbered with `index`.
    Capture { index: u64 },
}

impl RecordingError {
    /// The message shown to the user.
    pub fn message(&self) -> (r: &'static str) {
        match self {
            RecordingError::AlreadyActive => "Recording is already in progress",
            RecordingError::NotActive => "Recording is not in progress",
        }
    }
}

impl SessionState {
    /// The status snapshot of a state, as a spec value.
    pub open spec fn status_view(&self) -> (bool, u64, Seq<char>) {
        (self.is_active, self.capture_count, self.storage_path@)
    }

    /// A fresh, inactive session storing captures under `storage_path`.
    pub fn new(storage_path: String) -> (r: SessionState)
        ensures
            !r.is_active,
            r.capture_count == 0,
            r.storage_path@ == storage_path@,
    {
        SessionState { is_active: false, capture_count: 0, storage_path }
    }
}

/// Snapshot of `{is_active, capture_count, storage_path}`; no side effects.
pub fn get_status(state: &SessionState) -> (r: ScreenshotStatus)
    ensures
        r.is_recording == state.is_active,
        r.screenshots_count == state.capture_count,
        r.storage_path@ == state.storage_path@,
{
    ScreenshotStatus {
        is_recording: state.is_active,
        screenshots_count: state.capture_count,
        storage_path: state.storage_path.clone(),
    }
}

/// The directory under which captures are written.
pub fn get_storage_path(state: &SessionState) -> (r: String)
    ensures
        r@ == state.storage_path@,
{
    state.storage_path.clone()
}

impl ScreenshotStatus {
    /// The reported fields, as a spec value.
    pub open spec fn view_tuple(&self) -> (bool, u64, Seq<char>) {
        (self.is_recording, self.screenshots_count, self.storage_path@)
    }
}

/// The session view after `start`: unchanged when already active, otherwise
/// active with the counter back at zero.
pub open spec fn start_state(s: (bool, u64, Seq<char>)) -> (bool, u64, Seq<char>) {
    if s.0 {
        s
    } else {
        (true, 0, s.2)
    }
}

/// The session view after `stop`: unchanged when inactive, otherwise inactive
/// with the counter kept.
pub open spec fn stop_state(s: (bool, u64, Seq<char>)) -> (bool, u64, Seq<char>) {
    if s.0 {
        (false, s.1, s.2)
    } else {
        s
    }
}

/// Marks the session active. Fails with `AlreadyActive`, changing nothing,
/// when a session is already running; otherwise the counter starts again at
/// zero and the caller spawns the capture and summary loops.
pub fn start_recording(state: &mut SessionState) -> (r: Result<ScreenshotStatus, RecordingError>)
    ensures
        final(state).status_view() == start_state(old(state).status_view()),
        old(state).is_active ==> r == Err::<ScreenshotStatus, RecordingError>(
            RecordingError::AlreadyActive,
        ),
        !old(state).is_active ==> r.is_ok() && r.unwrap().view_tuple() == start_state(
            old(state).status_view(),
        ),
{
    if state.is_active {
        return Err(RecordingError::AlreadyActive);
    }
    state.is_active = true;
    state.capture_count = 0;
    Ok(get_status(state))
}

/// Clears the active flag. Fails with `NotActive`, changing nothing, when no
/// session is running; otherwise returns the final status with the last
/// known capture count, and the caller aborts the capture loop.
pub fn stop_recording(state: &mut SessionState) -> (r: Result<ScreenshotStatus, RecordingError>)
    ensures
        final(state).status_view() == stop_state(old(state).status_view()),
        !old(state).is_active ==> r == Err::<ScreenshotStatus, RecordingError>(
            RecordingError::NotActive,
        ),
        old(state).is_active ==> r.is_ok() && r.unwrap().view_tuple() == stop_state(
            old(state).status_view(),
        ),
{
    if !state.is_active {
        return Err(RecordingError::NotActive);
    }
    state.is_active = false;
    Ok(get_status(state))
}

/// Stopping a session that was never started is refused and leaves the
/// state as it was.
pub proof fn lemma_stop_before_start(path: Seq<char>)
    ensures
        !(false, 0u64, path).0,
        stop_state((false, 0u64, path)) == (false, 0u64, path),
{
}

/// After a successful start, a second start finds the session active, so it
/// is refused, and it leaves the flag and the counter as the first left them.
pub proof fn lemma_second_start_refused(s: (bool, u64, Seq<char>))
    ensures
        start_state(s).0,
        start_state(start_state(s)) == start_state(s),
{
}

/// The action of the capture loop on a tick, over a session view.
pub open spec fn tick_action(s: (bool, u64, Seq<char>)) -> CaptureAction {
    if s.0 {
        CaptureAction::Capture { index: s.1 }
    } else {
        CaptureAction::Exit
    }
}

/// The session view after a capture attempt that did or did not succeed.
pub open spec fn after_capture(s: (bool, u64, Seq<char>), succeeded: bool) -> (bool, u64, Seq<char>) {
    if succeeded {
        (s.0, (s.1 + 1) as u64, s.2)
    } else {
        s
    }
}

/// The session view after a run of capture attempts with the given outcomes.
pub open spec fn after_captures(s: (bool, u64, Seq<char>), outcomes: Seq<bool>) -> (bool, u64, Seq<char>)
    decreases outcomes.len(),
{
    if outcomes.len() == 0 {
        s
    } else {
        after_captures(after_capture(s, outcomes[0]), outcomes.drop_first())
    }
}

/// How many of the outcomes are successes.
pub open spec fn successes(outcomes: Seq<bool>) -> nat
    decreases outcomes.len(),
{
    if outcomes.len() == 0 {
        0
    } else {
        (if outcomes[0] { 1nat } else { 0nat }) + successes(outcomes.drop_first())
    }
}

/// Decides one tick of the capture loop: exit once the session is inactive,
/// otherwise capture the next frame, numbered by the current count.
pub fn capture_tick(state: &SessionState) -> (r: CaptureAction)
    ensures
        r == tick_action(state.status_view()),
{
    if state.is_active {
        CaptureAction::Capture { index: state.capture_count }
    } else {
        CaptureAction::Exit
    }
}

/// Records the outcome of a capture attempt. A success increments the
/// counter and asks for a change notification; a failure changes nothing, so
/// the loop goes on to its next tick.
pub fn record_capture(state: &mut SessionState, succeeded: bool) -> (notify: bool)
    requires
        old(state).capture_count < u64::MAX,
    ensures
        final(state).status_view() == after_capture(old(state).status_view(), succeeded),
        notify == succeeded,
{
    if succeeded {
        state.capture_count = state.capture_count + 1;
    }
    succeeded
}

/// A failed capture on one tick leaves the session as it was, so the next
/// tick captures again, with the same index.
pub proof fn lemma_failed_capture_keeps_running(s: (bool, u64, Seq<char>))
    requires
        s.0,
    ensures
        after_capture(s, false) == s,
        tick_action(after_capture(s, false)) == (CaptureAction::Capture { index: s.1 }),
{
}

/// Over any run of capture attempts on an active session, the session stays
/// active and the counter grows by exactly the number of successes.
pub proof fn lemma_counter_counts_successes(s: (bool, u64, Seq<char>), outcomes: Seq<bool>)
    requires
        s.1 + successes(outcomes) <= u64::MAX,
    ensures
        after_captures(s, outcomes).0 == s.0,
        after_captures(s, outcomes).1 == s.1 + successes(outcomes),
        after_captures(s, outcomes).2 == s.2,
    decreases outcomes.len(),
{
    if outcomes.len() > 0 {
        lemma_counter_counts_successes(after_capture(s, outcomes[0]), outcomes.drop_first());
    }
}

} // verus!
