//! Data model of the event protocol: the inbound client events, the
//! outbound server events, and the conversation items they carry.
use vstd::prelude::*;

verus! {

/// Audio codec declared by the client.  Only PCM16 is supported.
#[derive(Clone, Copy, Debug, PartialEq, Eq, Structural)]
pub enum AudioFormat {
    Pcm16,
    G711Ulaw,
    G711Alaw,
}

/// Output channels a response may use.
#[derive(Clone, Copy, Debug, PartialEq, Eq, Structural)]
pub enum Modality {
    Text,
    Audio,
}

/// Turn detection modes.  Server-side VAD is rejected: turn taking is
/// client driven through explicit commits.
#[derive(Clone, Copy, Debug, PartialEq, Eq, Structural)]
pub enum TurnDetectionKind {
    Disabled,
    ServerVad,
}

/// Turn detection settings; `create_response` defaults to true.
#[derive(Clone, Copy, Debug, PartialEq, Eq, Structural)]
pub struct TurnDetection {
    pub kind: TurnDetectionKind,
    pub create_response: Option<bool>,
}

/// Partial session configuration carried by `session.update`.  Every
/// field is optional until the client sets it.  The temperature is held
/// in tenths so the model stays within plain integers.
#[derive(Clone, Debug)]
pub struct SessionConfig {
    pub modalities: Option<Vec<Modality>>,
    pub instructions: Option<String>,
    pub input_audio_format: Option<AudioFormat>,
    pub output_audio_format: Option<AudioFormat>,
    pub input_audio_transcription: Option<String>,
    pub turn_detection: Option<TurnDetection>,
    pub tools: Option<String>,
    pub tool_choice: Option<String>,
    pub temperature_tenths: Option<u32>,
    pub max_output_tokens: Option<u32>,
}

impl Default for SessionConfig {
    /// The empty configuration: nothing set yet.
    fn default() -> (c: SessionConfig)
        ensures
            c.modalities is None,
            c.instructions is None,
            c.input_audio_format is None,
            c.output_audio_format is None,
            c.input_audio_transcription is None,
            c.turn_detection is None,
            c.tools is None,
            c.tool_choice is None,
            c.temperature_tenths is None,
            c.max_output_tokens is None,
    {
        SessionConfig {
            modalities: None,
            instructions: None,
            input_audio_format: None,
            output_audio_format: None,
            input_audio_transcription: None,
            turn_detection: None,
            tools: None,
            tool_choice: None,
            temperature_tenths: None,
            max_output_tokens: None,
        }
    }
}

/// One piece of an item's content.  Audio payloads are base64 text.
#[derive(Clone, Debug)]
pub enum ContentPart {
    Text { text: String },
    InputText { text: String },
    InputAudio { audio: String, transcript: Option<String> },
    Audio { audio: Option<String>, transcript: Option<String> },
}

/// A conversation entry: a message, a function call, or its output.
#[derive(Clone, Debug)]
pub struct ConversationItem {
    pub id: Option<String>,
    pub object: Option<String>,
    pub item_type: String,
    pub status: Option<String>,
    pub role: Option<String>,
    pub content: Option<Vec<ContentPart>>,
    pub call_id: Option<String>,
    pub name: Option<String>,
    pub arguments: Option<String>,
    pub output: Option<String>,
}

/// The effective session as echoed to the client.
#[derive(Clone, Debug)]
pub struct Session {
    pub id: String,
    pub object: String,
    pub model: String,
    pub modalities: Vec<Modality>,
    pub instructions: String,
    pub voice: String,
    pub input_audio_format: AudioFormat,
    pub output_audio_format: AudioFormat,
    pub input_audio_transcription: Option<String>,
    pub turn_detection: Option<TurnDetection>,
    pub tools: Option<String>,
    pub tool_choice: Option<String>,
    pub temperature_tenths: Option<u32>,
    pub max_output_tokens: Option<u32>,
}

/// The response record carried by `response.created` and `response.done`.
#[derive(Clone, Debug)]
pub struct Response {
    pub id: String,
    pub object: String,
    pub status: String,
}

/// The conversation record of `conversation.created`.
#[derive(Clone, Debug)]
pub struct Conversation {
    pub id: String,
    pub object: String,
}

/// Payload of an `error` event.
#[derive(Clone, Debug)]
pub struct ErrorDetails {
    pub error_type: String,
    pub code: Option<String>,
    pub message: String,
    pub param: Option<String>,
    pub event_id: Option<String>,
}

/// Inbound events recognized from the client.
#[derive(Clone, Debug)]
pub enum ClientEvent {
    SessionUpdate { event_id: Option<String>, session: SessionConfig },
    InputAudioBufferAppend { event_id: Option<String>, audio: String },
    InputAudioBufferCommit { event_id: Option<String> },
    InputAudioBufferClear { event_id: Option<String> },
    ConversationItemCreate {
        event_id: Option<String>,
        previous_item_id: Option<String>,
        item: ConversationItem,
    },
    ResponseCreate { event_id: Option<String>, response: Option<String> },
    ResponseCancel { event_id: Option<String> },
}

/// Outbound events sent to the client, in the protocol's shapes.
#[derive(Clone, Debug)]
pub enum ServerEvent {
    SessionCreated { event_id: String, session: Session },
    SessionUpdated { event_id: String, session: Session },
    ConversationCreated { event_id: String, conversation: Conversation },
    ConversationItemCreated {
        event_id: String,
        previous_item_id: Option<String>,
        item: ConversationItem,
    },
    ConversationItemInputAudioTranscriptionCompleted {
        event_id: String,
        item_id: String,
        content_index: u32,
        transcript: String,
    },
    InputAudioBufferCommitted {
        event_id: String,
        previous_item_id: Option<String>,
        item_id: String,
    },
    InputAudioBufferCleared { event_id: String },
    ResponseCreated { event_id: String, response: Response },
    ResponseOutputItemAdded {
        event_id: String,
        response_id: String,
        output_index: u32,
        item: ConversationItem,
    },
    ResponseOutputItemDone {
        event_id: String,
        response_id: String,
        output_index: u32,
        item: ConversationItem,
    },
    ResponseContentPartAdded {
        event_id: String,
        response_id: String,
        item_id: String,
        output_index: u32,
        content_index: u32,
        part: ContentPart,
    },
    ResponseContentPartDone {
        event_id: String,
        response_id: String,
        item_id: String,
        output_index: u32,
        content_index: u32,
        part: ContentPart,
    },
    ResponseTextDelta {
        event_id: String,
        response_id: String,
        item_id: String,
        output_index: u32,
        content_index: u32,
        delta: String,
    },
    ResponseTextDone {
        event_id: String,
        response_id: String,
        item_id: String,
        output_index: u32,
        content_index: u32,
        text: String,
    },
    ResponseAudioDelta {
        event_id: String,
        response_id: String,
        item_id: String,
        output_index: u32,
        content_index: u32,
        delta: String,
    },
    ResponseAudioDone {
        event_id: String,
        response_id: String,
        item_id: String,
        output_index: u32,
        content_index: u32,
    },
    ResponseDone { event_id: String, response: Response },
    ConversationInterrupted { event_id: String },
    Error { event_id: String, error: ErrorDetails },
}

} // verus!
