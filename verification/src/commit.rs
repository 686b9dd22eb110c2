//! The commit subpipeline: taking the pending audio buffer, wrapping
//! it as WAV, and — after the caller has consulted VAD and ASR —
//! recording the transcript and emitting the commit's events.
use vstd::prelude::*;
use vstd::string::StringExecFns;
use crate::audio::{wav_wrap, wav_wrap_spec};
use crate::events::{ContentPart, ConversationItem, ServerEvent, SessionConfig};
use crate::handler::pushed_one;
use crate::outside::{base64_of, encode_base64, fresh_id};
use crate::session::{RealtimeSession, Role};
use crate::text::{join_with, views_of, join_segments};
use crate::INPUT_SAMPLE_RATE;

verus! {

/// A `conversation.item.input_audio_transcription.completed` event for
/// `item_id` at content index 0 carrying `transcript`.
pub open spec fn is_transcription_completed(
    e: ServerEvent,
    item_id: Seq<char>,
    transcript: Seq<char>,
) -> bool {
    e matches ServerEvent::ConversationItemInputAudioTranscriptionCompleted {
        event_id: _,
        item_id: i,
        content_index,
        transcript: t,
    } && i@ == item_id && content_index == 0 && t@ == transcript
}

/// An `input_audio_buffer.committed` event for `item_id` with no
/// previous item.
pub open spec fn is_committed_event(e: ServerEvent, item_id: Seq<char>) -> bool {
    e matches ServerEvent::InputAudioBufferCommitted {
        event_id: _,
        previous_item_id,
        item_id: i,
    } && previous_item_id is None && i@ == item_id
}

/// Whether a successful commit may start a response: the configured
/// `turn_detection.create_response`, true when unset.
pub open spec fn create_response_flag(c: SessionConfig) -> bool {
    match c.turn_detection {
        Some(td) => match td.create_response {
            Some(b) => b,
            None => true,
        },
        None => true,
    }
}

/// A non-empty commit in flight: the taken audio, its WAV wrapping,
/// the minted item id and the `committed` event already owed.
pub struct CommitTicket {
    pub item_id: String,
    pub pcm: Vec<u8>,
    pub wav: Vec<u8>,
    pub events: Vec<ServerEvent>,
}

/// Apply `input_audio_buffer.commit` up to the external calls: the
/// buffer is taken atomically.  An empty buffer commits to nothing.  A
/// non-empty one yields a ticket holding the audio, its 24 kHz WAV
/// wrapping, a minted (or the given) item id, and the single
/// `input_audio_buffer.committed` event.
pub fn begin_commit(s: &mut RealtimeSession, item_id: Option<String>) -> (r: Option<CommitTicket>)
    requires
        old(s).input_audio_buffer@.len() + 44 <= 0xFFFF_FFFF,
    ensures
        final(s).input_audio_buffer@ == Seq::<u8>::empty(),
        RealtimeSession::same_but_buffer(*old(s), *final(s)),
        old(s).input_audio_buffer@.len() == 0 <==> r is None,
        (r matches Some(t) ==> ({
            &&& t.pcm@ == old(s).input_audio_buffer@
            &&& t.wav@ == wav_wrap_spec(INPUT_SAMPLE_RATE, t.pcm@)
            &&& (match item_id {
                Some(given) => t.item_id == given,
                None => t.item_id@.len() == 36,
            })
            &&& t.events@.len() == 1
            &&& is_committed_event(t.events@[0], t.item_id@)
        })),
{
    let mut audio_data: Vec<u8> = Vec::new();
    core::mem::swap(&mut audio_data, &mut s.input_audio_buffer);
    let item_id = match item_id {
        Some(given) => given,
        None => fresh_id(),
    };
    if audio_data.len() == 0 {
        return None;
    }
    let wav = wav_wrap(&audio_data, INPUT_SAMPLE_RATE);
    let mut events: Vec<ServerEvent> = Vec::new();
    events.push(
        ServerEvent::InputAudioBufferCommitted {
            event_id: fresh_id(),
            previous_item_id: None,
            item_id: item_id.clone(),
        },
    );
    Some(CommitTicket { item_id, pcm: audio_data, wav, events })
}

/// Close a commit whose VAD verdict was silence: the single event owed
/// is the transcription-completed event with an empty transcript, the
/// state is untouched and no response may follow.
pub fn commit_silence(t: &CommitTicket) -> (events: Vec<ServerEvent>)
    ensures
        events@.len() == 1,
        is_transcription_completed(events@[0], t.item_id@, Seq::<char>::empty()),
{
    let mut events: Vec<ServerEvent> = Vec::new();
    events.push(
        ServerEvent::ConversationItemInputAudioTranscriptionCompleted {
            event_id: fresh_id(),
            item_id: t.item_id.clone(),
            content_index: 0,
            transcript: String::new(),
        },
    );
    events
}

/// Close a commit with the ASR segments: the transcript is the
/// segments joined by newlines; it is appended to the history as one
/// user record, a `conversation.item.created` event carries the user
/// item holding the audio and the transcript, then the
/// transcription-completed event follows; the returned flag says
/// whether a response should now be generated.
pub fn commit_transcribed(s: &mut RealtimeSession, t: &CommitTicket, segments: &Vec<String>) -> (r:
    (Vec<ServerEvent>, bool))
    requires
        t.pcm@.len() <= 0x1000_0000_0000_0000,
    ensures
        ({
            let transcript = join_with(views_of(segments@), seq!['\n']);
            &&& pushed_one(old(s).messages@, final(s).messages@, Role::User, transcript)
            &&& final(s).id == old(s).id
            &&& final(s).config == old(s).config
            &&& final(s).input_audio_buffer == old(s).input_audio_buffer
            &&& final(s).is_generating == old(s).is_generating
            &&& final(s).system_prompts == old(s).system_prompts
            &&& r.0@.len() == 2
            &&& (r.0@[0] matches ServerEvent::ConversationItemCreated {
                event_id: _,
                previous_item_id,
                item,
            } && ({
                &&& previous_item_id is None
                &&& (item.id matches Some(i) && i == t.item_id)
                &&& item.item_type@ == "message"@
                &&& (item.status matches Some(st) && st@ == "completed"@)
                &&& (item.role matches Some(ro) && ro@ == "user"@)
                &&& (item.content matches Some(c) && c@.len() == 1 && (c@[0]
                    matches ContentPart::InputAudio { audio, transcript: tr } && audio@
                    == base64_of(t.pcm@) && (tr matches Some(trs) && trs@ == transcript)))
            }))
            &&& is_transcription_completed(r.0@[1], t.item_id@, transcript)
            &&& r.1 == create_response_flag(old(s).config)
        }),
{
    let transcript = join_segments(segments);
    let user_item = ConversationItem {
        id: Some(t.item_id.clone()),
        object: Some(String::from_str("realtime.item")),
        item_type: String::from_str("message"),
        status: Some(String::from_str("completed")),
        role: Some(String::from_str("user")),
        content: Some(
            {
                let mut parts: Vec<ContentPart> = Vec::new();
                parts.push(
                    ContentPart::InputAudio {
                        audio: encode_base64(&t.pcm),
                        transcript: Some(transcript.clone()),
                    },
                );
                parts
            },
        ),
        call_id: None,
        name: None,
        arguments: None,
        output: None,
    };
    s.add_user_message(transcript.clone());
    let mut events: Vec<ServerEvent> = Vec::new();
    events.push(
        ServerEvent::ConversationItemCreated {
            event_id: fresh_id(),
            previous_item_id: None,
            item: user_item,
        },
    );
    events.push(
        ServerEvent::ConversationItemInputAudioTranscriptionCompleted {
            event_id: fresh_id(),
            item_id: t.item_id.clone(),
            content_index: 0,
            transcript,
        },
    );
    let create_response = match &s.config.turn_detection {
        Some(td) => match td.create_response {
            Some(b) => b,
            None => true,
        },
        None => true,
    };
    (events, create_response)
}

} // verus!
