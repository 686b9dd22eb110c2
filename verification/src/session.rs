//! Per-connection session state: identity, effective configuration,
//! the pending input audio buffer, the chat history and the generation
//! flag.
use vstd::prelude::*;
use crate::events::SessionConfig;
use crate::outside::fresh_id;

verus! {

/// Who wrote a chat history record.
#[derive(Clone, Copy, Debug, PartialEq, Eq, Structural)]
pub enum Role {
    User,
    Assistant,
    System,
    Tool,
}

/// The function named by a tool call.
#[derive(Clone, Debug)]
pub struct ToolFunction {
    pub name: String,
    pub arguments: String,
}

/// One tool call attached to an assistant record.
#[derive(Clone, Debug)]
pub struct ToolCall {
    pub id: String,
    pub call_type: String,
    pub function: ToolFunction,
}

/// One record of the chat history.
#[derive(Clone, Debug)]
pub struct ChatMessage {
    pub role: Role,
    pub message: String,
    pub tool_calls: Option<Vec<ToolCall>>,
    pub tool_call_id: Option<String>,
}

/// The state owned by one client connection.
pub struct RealtimeSession {
    pub id: String,
    pub config: SessionConfig,
    pub input_audio_buffer: Vec<u8>,
    pub is_generating: bool,
    pub system_prompts: Vec<ChatMessage>,
    pub messages: Vec<ChatMessage>,
}

impl RealtimeSession {
    /// Fields other than the audio buffer agree between `a` and `b`.
    pub open spec fn same_but_buffer(a: RealtimeSession, b: RealtimeSession) -> bool {
        &&& a.id == b.id
        &&& a.config == b.config
        &&& a.is_generating == b.is_generating
        &&& a.system_prompts == b.system_prompts
        &&& a.messages == b.messages
    }

    /// The history ends with an assistant record.
    pub open spec fn last_role_assistant(self) -> bool {
        self.messages@.len() > 0 && self.messages@.last().role == Role::Assistant
    }

    /// A fresh session: minted id, empty configuration, empty buffer,
    /// not generating, history seeded with the given prompts.
    pub fn new(system_prompts: Vec<ChatMessage>, messages: Vec<ChatMessage>) -> (s: RealtimeSession)
        ensures
            s.id@.len() == 36,
            s.config.modalities is None,
            s.config.instructions is None,
            s.config.input_audio_format is None,
            s.config.output_audio_format is None,
            s.config.input_audio_transcription is None,
            s.config.turn_detection is None,
            s.config.tools is None,
            s.config.tool_choice is None,
            s.config.temperature_tenths is None,
            s.config.max_output_tokens is None,
            s.input_audio_buffer@ == Seq::<u8>::empty(),
            s.is_generating == false,
            s.system_prompts == system_prompts,
            s.messages == messages,
    {
        RealtimeSession {
            id: fresh_id(),
            config: SessionConfig::default(),
            input_audio_buffer: Vec::new(),
            is_generating: false,
            system_prompts,
            messages,
        }
    }

    /// Append a user record holding `text` to the history.
    pub fn add_user_message(&mut self, text: String)
        ensures
            final(self).messages@.len() == old(self).messages@.len() + 1,
            final(self).messages@ == old(self).messages@.push(final(self).messages@.last()),
            final(self).messages@.last().role == Role::User,
            final(self).messages@.last().message == text,
            final(self).messages@.last().tool_calls is None,
            final(self).messages@.last().tool_call_id is None,
            final(self).id == old(self).id,
            final(self).config == old(self).config,
            final(self).input_audio_buffer == old(self).input_audio_buffer,
            final(self).is_generating == old(self).is_generating,
            final(self).system_prompts == old(self).system_prompts,
    {
        self.messages.push(ChatMessage {
            role: Role::User,
            message: text,
            tool_calls: None,
            tool_call_id: None,
        });
    }

    /// Append an assistant record holding `text` to the history.
    pub fn add_assistant_message(&mut self, text: String)
        ensures
            final(self).messages@.len() == old(self).messages@.len() + 1,
            final(self).messages@ == old(self).messages@.push(final(self).messages@.last()),
            final(self).messages@.last().role == Role::Assistant,
            final(self).messages@.last().message == text,
            final(self).messages@.last().tool_calls is None,
            final(self).messages@.last().tool_call_id is None,
            final(self).id == old(self).id,
            final(self).config == old(self).config,
            final(self).input_audio_buffer == old(self).input_audio_buffer,
            final(self).is_generating == old(self).is_generating,
            final(self).system_prompts == old(self).system_prompts,
    {
        self.messages.push(ChatMessage {
            role: Role::Assistant,
            message: text,
            tool_calls: None,
            tool_call_id: None,
        });
    }
}

} // verus!
