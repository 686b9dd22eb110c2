//! Static service configuration handed to each connection: which LLM,
//! TTS and ASR endpoints the pipelines talk to.
use vstd::prelude::*;
use crate::session::ChatMessage;

verus! {

/// LLM endpoint settings and the prompts seeding each chat history.
#[derive(Clone, Debug)]
pub struct LLMConfig {
    pub llm_chat_url: String,
    pub api_key: Option<String>,
    pub model: String,
    pub history: usize,
    pub sys_prompts: Vec<ChatMessage>,
    pub dynamic_prompts: Vec<ChatMessage>,
}

/// Settings of the TTS provider returning a full WAV blob.
#[derive(Clone, Debug)]
pub struct WavTTSConfig {
    pub url: String,
    pub api_key: String,
    pub model: String,
    pub speaker: String,
}

/// Settings of the TTS provider streaming raw 16 kHz PCM16 bytes.
#[derive(Clone, Debug)]
pub struct StreamTTSConfig {
    pub url: String,
    pub speaker: String,
}

/// The four TTS providers: three return a WAV blob, one streams PCM.
#[derive(Clone, Debug)]
pub enum TTSConfig {
    Stable(WavTTSConfig),
    Fish(WavTTSConfig),
    Groq(WavTTSConfig),
    StreamGSV(StreamTTSConfig),
}

impl TTSConfig {
    /// The voice name the provider will speak with, echoed in
    /// `session.updated`.
    pub fn voice(&self) -> (v: &String)
        ensures
            v == self.spec_voice(),
    {
        match self {
            TTSConfig::Stable(c) => &c.speaker,
            TTSConfig::Fish(c) => &c.speaker,
            TTSConfig::Groq(c) => &c.speaker,
            TTSConfig::StreamGSV(c) => &c.speaker,
        }
    }

    /// The voice field of each provider's settings.
    pub open spec fn spec_voice(&self) -> String {
        match self {
            TTSConfig::Stable(c) => c.speaker,
            TTSConfig::Fish(c) => c.speaker,
            TTSConfig::Groq(c) => c.speaker,
            TTSConfig::StreamGSV(c) => c.speaker,
        }
    }
}

/// ASR endpoint settings; `vad_url`, when set, gates silent commits.
#[derive(Clone, Debug)]
pub struct ASRConfig {
    pub url: String,
    pub api_key: String,
    pub model: String,
    pub lang: String,
    pub prompt: String,
    pub vad_url: Option<String>,
}

/// Everything a connection needs about the three external services.
#[derive(Clone, Debug)]
pub struct StableRealtimeConfig {
    pub llm: LLMConfig,
    pub tts: TTSConfig,
    pub asr: ASRConfig,
}

} // verus!
