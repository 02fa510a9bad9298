//! The payloads that pass through the gateway. The gateway builds the body of
//! one request and otherwise hands these values on untouched; fields that the
//! upstream is known to omit are optional.

use vstd::prelude::*;

verus! {

// ---------------------------------------------------------------- make call

/// The body of the request that initiates a call.
#[derive(Debug, PartialEq, Eq)]
pub struct MakeCallRequest {
    /// The prompt that drives the call.
    pub prompt: String,
    /// The evaluation tool definition, a JSON document opaque to the gateway.
    pub evaluation_tool: serde_json::Value,
    /// The voice-activity engine; left out of the body when absent.
    pub vad_engine: Option<String>,
}

/// What a `MakeCallRequest` says, with its texts as character sequences.
pub struct MakeCallRequestModel {
    pub prompt: Seq<char>,
    pub evaluation_tool: serde_json::Value,
    pub vad_engine: Option<Seq<char>>,
}

impl View for MakeCallRequest {
    type V = MakeCallRequestModel;

    open spec fn view(&self) -> MakeCallRequestModel {
        MakeCallRequestModel {
            prompt: self.prompt@,
            evaluation_tool: self.evaluation_tool,
            vad_engine: match self.vad_engine {
                Some(engine) => Some(engine@),
                None => None,
            },
        }
    }
}

/// The reply to a request that initiates a call.
#[derive(Debug, PartialEq, Eq)]
pub struct MakeCallResponse {
    pub data: CallData,
    pub status: String,
    pub status_code: u16,
    pub action_code: String,
}

/// The call that was created.
#[derive(Debug, PartialEq, Eq)]
pub struct CallData {
    pub id: u64,
    pub message: String,
}

// --------------------------------------------------------------- list calls

/// The reply to a request for the list of calls.
#[derive(Debug, PartialEq, Eq)]
pub struct ListCallsResponse {
    pub data: ListCallsData,
    pub status: String,
    pub status_code: u16,
    pub action_code: String,
}

/// One page of the list of calls.
#[derive(Debug, PartialEq, Eq)]
pub struct ListCallsData {
    pub count: u32,
    pub next: Option<String>,
    pub previous: Option<String>,
    pub results: Vec<CallItem>,
}

/// One call in the list.
#[derive(Debug, PartialEq, Eq)]
pub struct CallItem {
    pub id: u64,
    pub call_id: String,
    pub created: String,
    pub phone_number: String,
    pub status: String,
}

// -------------------------------------------------------------- call detail

/// The reply to a request for the details of one call.
#[derive(Debug, PartialEq, Eq)]
pub struct CallDetailResponse {
    pub data: CallDetailData,
    pub status: String,
    pub status_code: u16,
    pub action_code: String,
}

/// One call with the request that made it and what happened during it.
#[derive(Debug, PartialEq, Eq)]
pub struct CallDetailData {
    pub id: u64,
    pub call_id: String,
    pub created: String,
    pub phone_number: String,
    pub status: String,
    pub prompt: String,
    pub evaluation_tool: serde_json::Value,
    pub exotel_id: String,
    pub call_details: CallDetails,
}

/// The record of one call. The summary fields are absent while the upstream
/// has not produced them.
#[derive(Debug, PartialEq, Eq)]
pub struct CallDetails {
    pub call_id: String,
    pub events: Vec<Event>,
    pub llm_notes: Vec<serde_json::Value>,
    pub tool_calls: Vec<ToolCall>,
    pub phase_history: Vec<PhaseHistory>,
    pub usage_metadata: Option<UsageMetadata>,
    pub call_summary_data: Option<serde_json::Value>,
    pub call_outcomes_data: Option<serde_json::Value>,
    pub termination_reason: Option<String>,
    pub termination_source: Option<String>,
    pub transcription_data: TranscriptionData,
}

/// Something that happened during a call.
#[derive(Debug, PartialEq, Eq)]
pub struct Event {
    pub data: serde_json::Value,
    pub event: String,
    pub timestamp: i64,
}

/// A tool that the call invoked.
#[derive(Debug, PartialEq, Eq)]
pub struct ToolCall {
    pub tool_name: String,
    pub timestamp: i64,
}

/// A change of phase during a call.
#[derive(Debug, PartialEq, Eq)]
pub struct PhaseHistory {
    pub to: String,
    pub from: String,
    pub metadata: serde_json::Value,
    pub timestamp: i64,
}

/// The token counts of a call.
#[derive(Debug, PartialEq, Eq)]
pub struct UsageMetadata {
    pub total_token_count: u32,
    pub prompt_token_count: u32,
    pub prompt_tokens_details: Vec<TokenDetail>,
}

/// The token count of one modality.
#[derive(Debug, PartialEq, Eq)]
pub struct TokenDetail {
    pub modality: String,
    pub token_count: u32,
}

/// The transcripts of a call and the times that structure them.
#[derive(Debug, PartialEq, Eq)]
pub struct TranscriptionData {
    pub transcripts: Vec<serde_json::Value>,
    pub interruption_timestamps: Vec<i64>,
    pub turn_complete_timestamps: Vec<i64>,
    pub generation_complete_timestamps: Vec<i64>,
}

// ------------------------------------------------------------ recording url

/// The reply to a request for the recording of one call.
#[derive(Debug, PartialEq, Eq)]
pub struct RecordingUrlResponse {
    pub data: RecordingUrlData,
    pub status: String,
    pub status_code: u16,
    pub action_code: String,
}

/// Where the recording can be fetched; absent while there is none.
#[derive(Debug, PartialEq, Eq)]
pub struct RecordingUrlData {
    pub recording_url: Option<String>,
}

} // verus!
