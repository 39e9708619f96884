//! The remote summarization protocol as a state machine: upload the video,
//! poll the uploaded file until it is ready, then request generation. Each
//! response is an event; the machine answers with the next request or with
//! the final result. Sending requests and sleeping are the caller's.

use vstd::prelude::*;
use crate::remote::{
    api_root, file_request_body, file_request_spec, file_status_url, finish_generation,
    finish_upload, generate_url, generation_outcome, poll_outcome, poll_outcome_spec,
    read_status_body, resource_id_spec, status_outcome, upload_outcome, upload_url,
    ApiRequestResult, ClientError, FileState, GenerateResponse, RemoteFile, ResolutionMode,
};

verus! {

/// Where a summarization stands.
#[derive(Debug, Clone, PartialEq, Eq)]
pub enum ProtocolPhase {
    /// Waiting for the upload's response.
    Uploading,
    /// Waiting for a status response about the uploaded file `name`.
    Polling { name: String },
    /// Waiting for the generation response.
    Generating,
    /// Finished: nothing more is sent.
    Finished,
}

/// The next request to send.
#[derive(Debug, Clone, PartialEq, Eq)]
pub enum ProtocolRequest {
    /// Upload the video to `url`.
    Upload { url: String },
    /// Sleep `delay_ms`, then query the file's status at `url`.
    QueryStatus { url: String, delay_ms: u64 },
    /// Post the generation request `body` to `url`.
    Generate { url: String, body: String },
}

/// What follows a response.
#[derive(Debug, PartialEq, Eq)]
pub enum ProtocolStep {
    Send { request: ProtocolRequest },
    Done { result: Result<ApiRequestResult, ClientError> },
}

/// One summarization of one video.
#[derive(Debug)]
pub struct Summarization {
    pub phase: ProtocolPhase,
    pub model: String,
    pub prompt: String,
    pub resolution: ResolutionMode,
    pub poll_interval_ms: u64,
    pub timeout_ms: u64,
}

/// The name of the file being polled.
pub open spec fn polled_name(p: ProtocolPhase) -> Seq<char> {
    match p {
        ProtocolPhase::Polling { name } => name@,
        _ => Seq::empty(),
    }
}

/// A status query for the file `name`, after `delay` milliseconds.
pub open spec fn is_status_query(req: ProtocolRequest, name: Seq<char>, delay: u64) -> bool {
    req matches ProtocolRequest::QueryStatus { url, delay_ms } && url@ == api_root()
        + resource_id_spec(name) && delay_ms == delay
}

/// The generation request over the ready file `f`.
pub open spec fn is_generation_request(
    req: ProtocolRequest,
    model: Seq<char>,
    f: RemoteFile,
    prompt: Seq<char>,
    mode: ResolutionMode,
) -> bool {
    req matches ProtocolRequest::Generate { url, body } && url@ == api_root() + "models/"@ + model
        + ":generateContent"@ && body@ == file_request_spec(f.uri@, f.mime_type@, prompt, mode)
}

impl Summarization {
    /// The settings of a summarization, which no response changes.
    pub open spec fn same_settings(&self, other: &Summarization) -> bool {
        &&& self.model@ == other.model@
        &&& self.prompt@ == other.prompt@
        &&& self.resolution == other.resolution
        &&& self.poll_interval_ms == other.poll_interval_ms
        &&& self.timeout_ms == other.timeout_ms
    }

    /// Starts a summarization: the first request is the upload.
    pub fn begin(
        model: String,
        prompt: String,
        resolution: ResolutionMode,
        poll_interval_ms: u64,
        timeout_ms: u64,
    ) -> (r: (Summarization, ProtocolRequest))
        ensures
            r.0.phase == ProtocolPhase::Uploading,
            r.0.model@ == model@,
            r.0.prompt@ == prompt@,
            r.0.resolution == resolution,
            r.0.poll_interval_ms == poll_interval_ms,
            r.0.timeout_ms == timeout_ms,
            r.1 matches ProtocolRequest::Upload { url } && url@
                == "https://generativelanguage.googleapis.com/upload/v1beta/files"@,
    {
        let s = Summarization {
            phase: ProtocolPhase::Uploading,
            model,
            prompt,
            resolution,
            poll_interval_ms,
            timeout_ms,
        };
        (s, ProtocolRequest::Upload { url: String::from_str(upload_url()) })
    }

    /// The upload's response: on success, query the uploaded file's status
    /// at once; otherwise finish with the upload error.
    pub fn on_upload(&mut self, status: u16, error_text: String, body: Result<RemoteFile, String>) -> (r:
        ProtocolStep)
        requires
            old(self).phase == ProtocolPhase::Uploading,
        ensures
            final(self).same_settings(old(self)),
            match upload_outcome(status, error_text, body) {
                Ok(f) => final(self).phase == (ProtocolPhase::Polling { name: f.name }) && (
                r matches ProtocolStep::Send { request } && is_status_query(request, f.name@, 0)),
                Err(e) => final(self).phase == ProtocolPhase::Finished && r == (ProtocolStep::Done {
                    result: Err(e),
                }),
            },
    {
        match finish_upload(status, error_text, body) {
            Ok(f) => {
                let url = file_status_url(f.name.as_str());
                self.phase = ProtocolPhase::Polling { name: f.name };
                ProtocolStep::Send { request: ProtocolRequest::QueryStatus { url, delay_ms: 0 } }
            },
            Err(e) => {
                self.phase = ProtocolPhase::Finished;
                ProtocolStep::Done { result: Err(e) }
            },
        }
    }

    /// A status response, `elapsed_ms` after polling began: request
    /// generation once the file is ready, query again after the polling
    /// interval while it is processing within the time budget, and finish
    /// with the error otherwise.
    pub fn on_status(
        &mut self,
        status: u16,
        error_text: String,
        bare: Result<RemoteFile, String>,
        wrapped: Result<RemoteFile, String>,
        elapsed_ms: u64,
    ) -> (r: ProtocolStep)
        requires
            old(self).phase is Polling,
        ensures
            final(self).same_settings(old(self)),
            match status_outcome(status, error_text, bare, wrapped) {
                Err(e) => final(self).phase == ProtocolPhase::Finished && r == (ProtocolStep::Done {
                    result: Err(e),
                }),
                Ok(file) => match poll_outcome_spec(file, elapsed_ms, old(self).timeout_ms) {
                    Ok(Some(f)) => final(self).phase == ProtocolPhase::Generating && (
                    r matches ProtocolStep::Send { request } && is_generation_request(
                        request,
                        old(self).model@,
                        f,
                        old(self).prompt@,
                        old(self).resolution,
                    )),
                    Ok(None) => final(self).phase == old(self).phase && (
                    r matches ProtocolStep::Send { request } && is_status_query(
                        request,
                        polled_name(old(self).phase),
                        old(self).poll_interval_ms,
                    )),
                    Err(e) => final(self).phase == ProtocolPhase::Finished && r == (
                    ProtocolStep::Done { result: Err(e) }),
                },
            },
    {
        let file = match read_status_body(status, error_text, bare, wrapped) {
            Ok(f) => f,
            Err(e) => {
                self.phase = ProtocolPhase::Finished;
                return ProtocolStep::Done { result: Err(e) };
            },
        };
        match poll_outcome(file, elapsed_ms, self.timeout_ms) {
            Ok(Some(f)) => {
                let body = file_request_body(
                    f.uri.as_str(),
                    f.mime_type.as_str(),
                    self.prompt.as_str(),
                    self.resolution,
                );
                let url = generate_url(self.model.as_str());
                self.phase = ProtocolPhase::Generating;
                ProtocolStep::Send { request: ProtocolRequest::Generate { url, body } }
            },
            Ok(None) => {
                let url = match &self.phase {
                    ProtocolPhase::Polling { name } => file_status_url(name.as_str()),
                    _ => String::new(),
                };
                ProtocolStep::Send {
                    request: ProtocolRequest::QueryStatus { url, delay_ms: self.poll_interval_ms },
                }
            },
            Err(e) => {
                self.phase = ProtocolPhase::Finished;
                ProtocolStep::Done { result: Err(e) }
            },
        }
    }

    /// The generation response finishes the summarization with its outcome.
    pub fn on_generation(
        &mut self,
        status: u16,
        error_text: String,
        body: Result<GenerateResponse, String>,
        duration_ms: u64,
    ) -> (r: ProtocolStep)
        requires
            old(self).phase == ProtocolPhase::Generating,
        ensures
            final(self).same_settings(old(self)),
            final(self).phase == ProtocolPhase::Finished,
            r == (ProtocolStep::Done {
                result: generation_outcome(status, error_text, body, duration_ms),
            }),
    {
        self.phase = ProtocolPhase::Finished;
        ProtocolStep::Done { result: finish_generation(status, error_text, body, duration_ms) }
    }
}

/// Generation is requested only for a file whose reported state is
/// `Active`, and for that very file.
pub proof fn lemma_generation_only_when_active(file: RemoteFile, elapsed_ms: u64, timeout_ms: u64)
    ensures
        poll_outcome_spec(file, elapsed_ms, timeout_ms) matches Ok(Some(f)) ==> f == file
            && f.state == FileState::Active,
        file.state == FileState::Active ==> poll_outcome_spec(file, elapsed_ms, timeout_ms) == Ok::<
            Option<RemoteFile>,
            ClientError,
        >(Some(file)),
{
}

} // verus!
