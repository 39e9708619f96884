//! The remote summarization protocol: upload a media file, poll until the
//! provider reports it ready, then ask for a generated summary. Each phase
//! is a decision over what the transport brought back; the transport itself
//! lives with the caller.

use vstd::prelude::*;
use crate::text::{decimal, push_decimal};

verus! {

/// Processing state of an uploaded file, as the provider reports it.
#[derive(Debug, Clone, Copy, PartialEq, Eq, Structural)]
pub enum FileState {
    Processing,
    Active,
    Failed,
    Unknown,
}

/// A file held by the provider: transient, created by upload and updated by
/// polling.
#[derive(Debug, Clone, PartialEq, Eq)]
pub struct RemoteFile {
    pub name: String,
    pub uri: String,
    pub mime_type: String,
    pub state: FileState,
}

/// Token-cost / fidelity trade-off asked of the provider for media input.
#[derive(Debug, Clone, Copy, PartialEq, Eq, Structural)]
pub enum ResolutionMode {
    Low,
    Default,
}

/// One reported candidate: the text of each of its parts, `None` for a part
/// without text.
#[derive(Debug, Clone, PartialEq, Eq)]
pub struct Candidate {
    pub parts: Vec<Option<String>>,
}

/// Token usage reported with a generation.
#[derive(Debug, Clone, Copy, PartialEq, Eq, Structural)]
pub struct UsageMetadata {
    pub prompt_token_count: Option<i64>,
    pub candidates_token_count: Option<i64>,
    pub total_token_count: Option<i64>,
}

/// A decoded generation response.
#[derive(Debug, Clone, PartialEq, Eq)]
pub struct GenerateResponse {
    pub candidates: Vec<Candidate>,
    pub usage_metadata: Option<UsageMetadata>,
}

/// The result of a successful generation, with its token usage.
#[derive(Debug, Clone, PartialEq, Eq)]
pub struct ApiRequestResult {
    pub content: String,
    pub prompt_tokens: Option<i64>,
    pub completion_tokens: Option<i64>,
    pub total_tokens: Option<i64>,
    pub status_code: u16,
    pub duration_ms: u64,
}

/// Why a phase of the protocol failed. A `status` of 0 means that no HTTP
/// response was received.
#[derive(Debug, Clone, PartialEq, Eq)]
pub enum ClientError {
    /// The upload was refused, or its response could not be read.
    Upload { status: u16, detail: String },
    /// A status query was refused, or its response could not be read.
    StatusQuery { status: u16, detail: String },
    /// The provider reported that processing the file failed.
    RemoteProcessingFailed { name: String },
    /// The file did not become ready within the time budget.
    PollTimeout { timeout_ms: u64 },
    /// The generation request was refused, or its response could not be read.
    Generation { status: u16, detail: String },
    /// The generation response held no candidate text.
    EmptyResponse { status: u16 },
}

/// What the poll loop does after one status observation.
#[derive(Debug, Clone, Copy, PartialEq, Eq, Structural)]
pub enum PollStep {
    /// The file is ready: go on to generation.
    Ready,
    /// The provider failed to process the file.
    ProcessingFailed,
    /// The time budget is spent.
    TimedOut,
    /// Sleep for the polling interval, then query again.
    Wait,
}

/// Whether an HTTP status code is a success (2xx).
pub open spec fn is_success_spec(status: u16) -> bool {
    200 <= status <= 299
}

/// Whether an HTTP status code is a success (2xx).
pub fn is_success(status: u16) -> (r: bool)
    ensures
        r == is_success_spec(status),
{
    200 <= status && status <= 299
}

/// The state named by a reported state string; anything unrecognised,
/// including the empty string, is `Unknown`.
pub open spec fn file_state_of(s: Seq<char>) -> FileState {
    if s == "ACTIVE"@ {
        FileState::Active
    } else if s == "FAILED"@ {
        FileState::Failed
    } else if s == "PROCESSING"@ {
        FileState::Processing
    } else {
        FileState::Unknown
    }
}

/// Maps a reported state string to a `FileState`.
pub fn parse_file_state(s: &str) -> (r: FileState)
    ensures
        r == file_state_of(s@),
{
    let t = String::from_str(s);
    if t == String::from_str("ACTIVE") {
        FileState::Active
    } else if t == String::from_str("FAILED") {
        FileState::Failed
    } else if t == String::from_str("PROCESSING") {
        FileState::Processing
    } else {
        FileState::Unknown
    }
}

/// The poll decision: ready only on `Active`, failed only on `Failed`, and
/// for any other state wait until more than `timeout_ms` has elapsed.
pub open spec fn poll_step_spec(state: FileState, elapsed_ms: u64, timeout_ms: u64) -> PollStep {
    match state {
        FileState::Active => PollStep::Ready,
        FileState::Failed => PollStep::ProcessingFailed,
        _ => if elapsed_ms > timeout_ms {
            PollStep::TimedOut
        } else {
            PollStep::Wait
        },
    }
}

/// Decides the poll loop's next step from the reported state and the time
/// elapsed since polling began.
pub fn poll_decision(state: FileState, elapsed_ms: u64, timeout_ms: u64) -> (r: PollStep)
    ensures
        r == poll_step_spec(state, elapsed_ms, timeout_ms),
        r == PollStep::Ready <==> state == FileState::Active,
        r == PollStep::ProcessingFailed <==> state == FileState::Failed,
        r == PollStep::TimedOut <==> (state != FileState::Active && state != FileState::Failed
            && elapsed_ms > timeout_ms),
        r == PollStep::Wait <==> (state != FileState::Active && state != FileState::Failed
            && elapsed_ms <= timeout_ms),
{
    match state {
        FileState::Active => PollStep::Ready,
        FileState::Failed => PollStep::ProcessingFailed,
        _ => if elapsed_ms > timeout_ms {
            PollStep::TimedOut
        } else {
            PollStep::Wait
        },
    }
}

/// The step at which a run of observations `(state, elapsed)` stops: the
/// first that is not `Wait`, or `Wait` if every one of them waits.
pub open spec fn poll_run(obs: Seq<(FileState, u64)>, timeout_ms: u64) -> PollStep
    decreases obs.len(),
{
    if obs.len() == 0 {
        PollStep::Wait
    } else if poll_step_spec(obs[0].0, obs[0].1, timeout_ms) != PollStep::Wait {
        poll_step_spec(obs[0].0, obs[0].1, timeout_ms)
    } else {
        poll_run(obs.drop_first(), timeout_ms)
    }
}

/// Over any run of status observations, polling succeeds only if some
/// observation is `Active`, raises `ProcessingFailed` only if some is
/// `Failed`, and once an observation past the time budget is reached with
/// neither state seen, it times out.
pub proof fn lemma_poll_run(obs: Seq<(FileState, u64)>, timeout_ms: u64)
    ensures
        poll_run(obs, timeout_ms) == PollStep::Ready ==> exists|i: int|
            0 <= i < obs.len() && (#[trigger] obs[i]).0 == FileState::Active,
        poll_run(obs, timeout_ms) == PollStep::ProcessingFailed ==> exists|i: int|
            0 <= i < obs.len() && (#[trigger] obs[i]).0 == FileState::Failed,
        (forall|i: int| 0 <= i < obs.len() ==> (#[trigger] obs[i]).0 != FileState::Active
            && obs[i].0 != FileState::Failed) ==> (poll_run(obs, timeout_ms) == PollStep::TimedOut
            <==> exists|i: int| 0 <= i < obs.len() && (#[trigger] obs[i]).1 > timeout_ms),
    decreases obs.len(),
{
    if obs.len() > 0 {
        lemma_poll_run(obs.drop_first(), timeout_ms);
        let rest = obs.drop_first();
        if poll_run(obs, timeout_ms) == PollStep::Ready && poll_step_spec(obs[0].0, obs[0].1, timeout_ms)
            == PollStep::Wait {
            let i = choose|i: int| 0 <= i < rest.len() && (#[trigger] rest[i]).0 == FileState::Active;
            assert(obs[i + 1] == rest[i]);
        }
        if poll_run(obs, timeout_ms) == PollStep::ProcessingFailed && poll_step_spec(obs[0].0, obs[0].1, timeout_ms)
            == PollStep::Wait {
            let i = choose|i: int| 0 <= i < rest.len() && (#[trigger] rest[i]).0 == FileState::Failed;
            assert(obs[i + 1] == rest[i]);
        }
        if forall|i: int| 0 <= i < obs.len() ==> (#[trigger] obs[i]).0 != FileState::Active
            && obs[i].0 != FileState::Failed {
            assert(obs[0].0 != FileState::Active && obs[0].0 != FileState::Failed);
            assert forall|i: int| 0 <= i < rest.len() implies (#[trigger] rest[i]).0 != FileState::Active
                && rest[i].0 != FileState::Failed by {
                assert(rest[i] == obs[i + 1]);
            }
            if exists|i: int| 0 <= i < obs.len() && (#[trigger] obs[i]).1 > timeout_ms {
                let i = choose|i: int| 0 <= i < obs.len() && (#[trigger] obs[i]).1 > timeout_ms;
                if i > 0 {
                    assert(rest[i - 1] == obs[i]);
                }
            }
            if exists|i: int| 0 <= i < rest.len() && (#[trigger] rest[i]).1 > timeout_ms {
                let i = choose|i: int| 0 <= i < rest.len() && (#[trigger] rest[i]).1 > timeout_ms;
                assert(obs[i + 1] == rest[i]);
            }
        }
    }
}

/// The upload phase's outcome: a non-success status, or a body that could
/// not be read as a file, is an `Upload` error; otherwise the uploaded file.
pub open spec fn upload_outcome(status: u16, error_text: String, body: Result<RemoteFile, String>) -> Result<
    RemoteFile,
    ClientError,
> {
    if !is_success_spec(status) {
        Err(ClientError::Upload { status, detail: error_text })
    } else {
        match body {
            Ok(f) => Ok(f),
            Err(e) => Err(ClientError::Upload { status, detail: e }),
        }
    }
}

/// Reads the upload's response.
pub fn finish_upload(status: u16, error_text: String, body: Result<RemoteFile, String>) -> (r: Result<
    RemoteFile,
    ClientError,
>)
    ensures
        r == upload_outcome(status, error_text, body),
{
    if !is_success(status) {
        return Err(ClientError::Upload { status, detail: error_text });
    }
    match body {
        Ok(f) => Ok(f),
        Err(e) => Err(ClientError::Upload { status, detail: e }),
    }
}

/// One status query of the poll phase. The body may come either as a bare
/// file object or wrapped in an envelope: the bare reading is taken when it
/// succeeded, else the wrapped one. A non-success status, or a body that
/// neither reading accepts, is a `StatusQuery` error.
pub open spec fn status_outcome(
    status: u16,
    error_text: String,
    bare: Result<RemoteFile, String>,
    wrapped: Result<RemoteFile, String>,
) -> Result<RemoteFile, ClientError> {
    if !is_success_spec(status) {
        Err(ClientError::StatusQuery { status, detail: error_text })
    } else {
        match (bare, wrapped) {
            (Ok(f), _) => Ok(f),
            (Err(_), Ok(f)) => Ok(f),
            (Err(_), Err(e)) => Err(ClientError::StatusQuery { status, detail: e }),
        }
    }
}

/// Reads one status response.
pub fn read_status_body(
    status: u16,
    error_text: String,
    bare: Result<RemoteFile, String>,
    wrapped: Result<RemoteFile, String>,
) -> (r: Result<RemoteFile, ClientError>)
    ensures
        r == status_outcome(status, error_text, bare, wrapped),
{
    if !is_success(status) {
        return Err(ClientError::StatusQuery { status, detail: error_text });
    }
    match bare {
        Ok(f) => Ok(f),
        Err(_) => match wrapped {
            Ok(f) => Ok(f),
            Err(e) => Err(ClientError::StatusQuery { status, detail: e }),
        },
    }
}

/// The poll phase's outcome for one observed file: `Ok(Some(file))` when it
/// is ready, `Ok(None)` to wait and query again, or the phase's error.
pub open spec fn poll_outcome_spec(file: RemoteFile, elapsed_ms: u64, timeout_ms: u64) -> Result<
    Option<RemoteFile>,
    ClientError,
> {
    match poll_step_spec(file.state, elapsed_ms, timeout_ms) {
        PollStep::Ready => Ok(Some(file)),
        PollStep::Wait => Ok(None),
        PollStep::ProcessingFailed => Err(ClientError::RemoteProcessingFailed { name: file.name }),
        PollStep::TimedOut => Err(ClientError::PollTimeout { timeout_ms }),
    }
}

/// Decides the poll phase for one observed file.
pub fn poll_outcome(file: RemoteFile, elapsed_ms: u64, timeout_ms: u64) -> (r: Result<
    Option<RemoteFile>,
    ClientError,
>)
    ensures
        r == poll_outcome_spec(file, elapsed_ms, timeout_ms),
{
    match poll_decision(file.state, elapsed_ms, timeout_ms) {
        PollStep::Ready => Ok(Some(file)),
        PollStep::Wait => Ok(None),
        PollStep::ProcessingFailed => Err(ClientError::RemoteProcessingFailed { name: file.name }),
        PollStep::TimedOut => Err(ClientError::PollTimeout { timeout_ms }),
    }
}

/// The text of the first part of the first candidate, when there is one.
pub open spec fn first_text(resp: GenerateResponse) -> Option<String> {
    if resp.candidates@.len() > 0 && resp.candidates@[0].parts@.len() > 0 {
        resp.candidates@[0].parts@[0]
    } else {
        None
    }
}

/// The usage counts of a response, each absent when not reported.
pub open spec fn usage_of(resp: GenerateResponse) -> (Option<i64>, Option<i64>, Option<i64>) {
    match resp.usage_metadata {
        Some(u) => (u.prompt_token_count, u.candidates_token_count, u.total_token_count),
        None => (None, None, None),
    }
}

/// The generate phase's outcome: a non-success status, or a body that could
/// not be read, is a `Generation` error; a body with no first candidate
/// text is `EmptyResponse`; otherwise that text with the reported token
/// usage.
pub open spec fn generation_outcome(
    status: u16,
    error_text: String,
    body: Result<GenerateResponse, String>,
    duration_ms: u64,
) -> Result<ApiRequestResult, ClientError> {
    if !is_success_spec(status) {
        Err(ClientError::Generation { status, detail: error_text })
    } else {
        match body {
            Err(e) => Err(ClientError::Generation { status, detail: e }),
            Ok(resp) => match first_text(resp) {
                None => Err(ClientError::EmptyResponse { status }),
                Some(t) => Ok(
                    ApiRequestResult {
                        content: t,
                        prompt_tokens: usage_of(resp).0,
                        completion_tokens: usage_of(resp).1,
                        total_tokens: usage_of(resp).2,
                        status_code: status,
                        duration_ms,
                    },
                ),
            },
        }
    }
}

/// Reads the generation response.
pub fn finish_generation(
    status: u16,
    error_text: String,
    body: Result<GenerateResponse, String>,
    duration_ms: u64,
) -> (r: Result<ApiRequestResult, ClientError>)
    ensures
        r == generation_outcome(status, error_text, body, duration_ms),
{
    if !is_success(status) {
        return Err(ClientError::Generation { status, detail: error_text });
    }
    let resp = match body {
        Ok(resp) => resp,
        Err(e) => {
            return Err(ClientError::Generation { status, detail: e });
        },
    };
    if resp.candidates.len() == 0 || resp.candidates[0].parts.len() == 0 {
        return Err(ClientError::EmptyResponse { status });
    }
    let text = match &resp.candidates[0].parts[0] {
        Some(t) => t.clone(),
        None => {
            return Err(ClientError::EmptyResponse { status });
        },
    };
    let (prompt_tokens, completion_tokens, total_tokens) = match resp.usage_metadata {
        Some(u) => (u.prompt_token_count, u.candidates_token_count, u.total_token_count),
        None => (None, None, None),
    };
    Ok(ApiRequestResult {
        content: text,
        prompt_tokens,
        completion_tokens,
        total_tokens,
        status_code: status,
        duration_ms,
    })
}

impl ClientError {
    /// The HTTP status of the response that failed, or 0 where the failure
    /// was not an HTTP response.
    pub open spec fn status_spec(&self) -> u16 {
        match self {
            ClientError::Upload { status, .. } => *status,
            ClientError::StatusQuery { status, .. } => *status,
            ClientError::Generation { status, .. } => *status,
            ClientError::EmptyResponse { status } => *status,
            _ => 0,
        }
    }

    /// The HTTP status of the response that failed, or 0.
    pub fn status_code(&self) -> (r: u16)
        ensures
            r == self.status_spec(),
    {
        match self {
            ClientError::Upload { status, .. } => *status,
            ClientError::StatusQuery { status, .. } => *status,
            ClientError::Generation { status, .. } => *status,
            ClientError::EmptyResponse { status } => *status,
            _ => 0,
        }
    }

    /// The description of an error, as recorded in telemetry.
    pub open spec fn message_spec(&self) -> Seq<char> {
        match self {
            ClientError::Upload { status, detail } => "Gemini File API error: "@ + decimal(
                *status as nat,
            ) + " - "@ + detail@,
            ClientError::StatusQuery { status, detail } => "Gemini File API error: "@ + decimal(
                *status as nat,
            ) + " - "@ + detail@,
            ClientError::RemoteProcessingFailed { name } => "File processing failed: "@ + name@,
            ClientError::PollTimeout { timeout_ms } => "Wait for file ACTIVE timeout after "@
                + decimal(*timeout_ms as nat) + "ms"@,
            ClientError::Generation { status, detail } => "Gemini API error: "@ + decimal(
                *status as nat,
            ) + " - "@ + detail@,
            ClientError::EmptyResponse { .. } => "No response from Gemini API"@,
        }
    }

    /// The description of an error, as recorded in telemetry.
    pub fn message(&self) -> (r: String)
        ensures
            r@ == self.message_spec(),
    {
        match self {
            ClientError::Upload { status, detail } => {
                let mut r = String::from_str("Gemini File API error: ");
                push_decimal(&mut r, *status as u64);
                r.append(" - ");
                r.append(detail.as_str());
                r
            },
            ClientError::StatusQuery { status, detail } => {
                let mut r = String::from_str("Gemini File API error: ");
                push_decimal(&mut r, *status as u64);
                r.append(" - ");
                r.append(detail.as_str());
                r
            },
            ClientError::RemoteProcessingFailed { name } => {
                let mut r = String::from_str("File processing failed: ");
                r.append(name.as_str());
                r
            },
            ClientError::PollTimeout { timeout_ms } => {
                let mut r = String::from_str("Wait for file ACTIVE timeout after ");
                push_decimal(&mut r, *timeout_ms);
                r.append("ms");
                r
            },
            ClientError::Generation { status, detail } => {
                let mut r = String::from_str("Gemini API error: ");
                push_decimal(&mut r, *status as u64);
                r.append(" - ");
                r.append(detail.as_str());
                r
            },
            ClientError::EmptyResponse { .. } => String::from_str("No response from Gemini API"),
        }
    }
}

/// The JSON string literal for a text: quoted, with the characters that JSON
/// requires escaped.
pub uninterp spec fn json_string_literal(s: Seq<char>) -> Seq<char>;

/// Relies on `serde_json::to_string` applied to a string slice: the JSON
/// string literal of the text. Serializing a `str` fails only on an error
/// of the writer, and its writer is a `Vec<u8>`, which never fails.
#[verifier::external_body]
fn json_quote(s: &str) -> (r: String)
    ensures
        r@ == json_string_literal(s@),
{
    serde_json::to_string(s).unwrap_or_default()
}

/// The `mediaResolution.level` value for a resolution mode.
pub open spec fn media_level_spec(mode: ResolutionMode) -> Seq<char> {
    match mode {
        ResolutionMode::Low => "MEDIA_RESOLUTION_LOW"@,
        ResolutionMode::Default => "MEDIA_RESOLUTION_DEFAULT"@,
    }
}

/// The `mediaResolution.level` value for a resolution mode.
pub fn media_resolution_level(mode: ResolutionMode) -> (r: &'static str)
    ensures
        r@ == media_level_spec(mode),
{
    match mode {
        ResolutionMode::Low => "MEDIA_RESOLUTION_LOW",
        ResolutionMode::Default => "MEDIA_RESOLUTION_DEFAULT",
    }
}

/// The body of a generation request over an uploaded file.
pub open spec fn file_request_spec(uri: Seq<char>, mime: Seq<char>, prompt: Seq<char>, mode: ResolutionMode) -> Seq<char> {
    "{\"contents\":[{\"parts\":[{\"fileData\":{\"fileUri\":"@ + json_string_literal(uri)
        + ",\"mimeType\":"@ + json_string_literal(mime) + "},\"mediaResolution\":{\"level\":\""@
        + media_level_spec(mode) + "\"}},{\"text\":"@ + json_string_literal(prompt) + "}]}]}"@
}

/// The body of a text-only generation request.
pub open spec fn text_request_spec(prompt: Seq<char>) -> Seq<char> {
    "{\"contents\":[{\"parts\":[{\"text\":"@ + json_string_literal(prompt) + "}]}]}"@
}

/// Frames the JSON body of a generation request that references an active
/// file by URI and MIME type, with the resolution hint and the instruction.
pub fn file_request_body(uri: &str, mime_type: &str, prompt: &str, mode: ResolutionMode) -> (r:
    String)
    ensures
        r@ == file_request_spec(uri@, mime_type@, prompt@, mode),
{
    let qu = json_quote(uri);
    let qm = json_quote(mime_type);
    let qp = json_quote(prompt);
    let mut b = String::from_str("{\"contents\":[{\"parts\":[{\"fileData\":{\"fileUri\":");
    b.append(qu.as_str());
    b.append(",\"mimeType\":");
    b.append(qm.as_str());
    b.append("},\"mediaResolution\":{\"level\":\"");
    b.append(media_resolution_level(mode));
    b.append("\"}},{\"text\":");
    b.append(qp.as_str());
    b.append("}]}]}");
    b
}

/// Frames the JSON body of a text-only generation request.
pub fn text_request_body(prompt: &str) -> (r: String)
    ensures
        r@ == text_request_spec(prompt@),
{
    let qp = json_quote(prompt);
    let mut b = String::from_str("{\"contents\":[{\"parts\":[{\"text\":");
    b.append(qp.as_str());
    b.append("}]}]}");
    b
}

/// Whether `s` begins with `p`.
pub open spec fn has_prefix(s: Seq<char>, p: Seq<char>) -> bool {
    p.len() <= s.len() && s.subrange(0, p.len() as int) == p
}

/// Whether `s` begins with `p`.
pub fn starts_with(s: &str, p: &str) -> (r: bool)
    ensures
        r == has_prefix(s@, p@),
{
    let n = s.unicode_len();
    let m = p.unicode_len();
    if m > n {
        return false;
    }
    let mut i: usize = 0;
    while i < m
        invariant
            n == s@.len(),
            m == p@.len(),
            m <= n,
            i <= m,
            forall|k: int| 0 <= k < i ==> s@[k] == p@[k],
        decreases m - i,
    {
        if s.get_char(i) != p.get_char(i) {
            assert(s@.subrange(0, m as int)[i as int] != p@[i as int]);
            return false;
        }
        i = i + 1;
    }
    assert(s@.subrange(0, m as int) =~= p@);
    true
}

/// The resource identifier of a file: its name, prefixed with `files/`
/// unless it already is.
pub open spec fn resource_id_spec(name: Seq<char>) -> Seq<char> {
    if has_prefix(name, "files/"@) {
        name
    } else {
        "files/"@ + name
    }
}

/// The resource identifier of a file, `files/<id>`.
pub fn file_resource_id(name: &str) -> (r: String)
    ensures
        r@ == resource_id_spec(name@),
{
    if starts_with(name, "files/") {
        String::from_str(name)
    } else {
        let mut r = String::from_str("files/");
        r.append(name);
        r
    }
}

/// The provider's API root.
pub open spec fn api_root() -> Seq<char> {
    "https://generativelanguage.googleapis.com/v1beta/"@
}

/// Where a file's status is queried.
pub fn file_status_url(name: &str) -> (r: String)
    ensures
        r@ == api_root() + resource_id_spec(name@),
{
    let mut r = String::from_str("https://generativelanguage.googleapis.com/v1beta/");
    let id = file_resource_id(name);
    r.append(id.as_str());
    r
}

/// Where content generation is requested for a model.
pub fn generate_url(model: &str) -> (r: String)
    ensures
        r@ == api_root() + "models/"@ + model@ + ":generateContent"@,
{
    let mut r = String::from_str("https://generativelanguage.googleapis.com/v1beta/models/");
    r.append(model);
    r.append(":generateContent");
    proof {
        reveal_strlit("https://generativelanguage.googleapis.com/v1beta/models/");
        reveal_strlit("https://generativelanguage.googleapis.com/v1beta/");
        reveal_strlit("models/");
        assert(r@ =~= api_root() + "models/"@ + model@ + ":generateContent"@);
    }
    r
}

/// Where media files are uploaded.
pub fn upload_url() -> (r: &'static str)
    ensures
        r@ == "https://generativelanguage.googleapis.com/upload/v1beta/files"@,
{
    "https://generativelanguage.googleapis.com/upload/v1beta/files"
}

/// The endpoint recorded in telemetry for generation calls.
pub fn telemetry_endpoint() -> (r: &'static str)
    ensures
        r@ == "https://generativelanguage.googleapis.com/v1beta/models"@,
{
    "https://generativelanguage.googleapis.com/v1beta/models"
}

} // verus!
