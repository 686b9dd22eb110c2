//! The response turn: gating, the strictly ordered lifecycle events
//! around an LLM stream, the fallback text, and the closing events
//! that settle the history and the generation flag.
use vstd::prelude::*;
use vstd::string::{StrSliceExecFns, StringExecFns};
use crate::events::{ContentPart, ConversationItem, Modality, Response, ServerEvent, SessionConfig};
use crate::handler::pushed_one;
use crate::outside::fresh_id;
use crate::session::{RealtimeSession, Role};
use crate::text::{chunk_has_content, chunk_valid, spec_blank, text_is_blank};

verus! {

broadcast use vstd::string::group_string_axioms;

/// The fallback text substituted when the LLM yields nothing usable.
pub open spec fn standard_error_text() -> Seq<char> {
    "抱歉，我没能理解您的回复。请您换种表达方式重新说一下"@
}

/// The fallback response sent when the LLM yields nothing usable.
pub fn standard_error_response() -> (r: String)
    ensures
        r@ == standard_error_text(),
{
    String::from_str("抱歉，我没能理解您的回复。请您换种表达方式重新说一下")
}

/// The audio modality is active in `c`.
pub open spec fn audio_modality(c: SessionConfig) -> bool {
    c.modalities matches Some(m) && m@.contains(Modality::Audio)
}

/// Whether the configuration activates the audio modality.
pub fn has_audio_modality(c: &SessionConfig) -> (b: bool)
    ensures
        b == audio_modality(*c),
{
    match &c.modalities {
        Some(m) => {
            let mut k: usize = 0;
            while k < m.len()
                invariant
                    c.modalities == Some(*m),
                    0 <= k <= m@.len(),
                    forall|i: int| 0 <= i < k ==> m@[i] != Modality::Audio,
                decreases m@.len() - k,
            {
                if m[k] == Modality::Audio {
                    proof {
                        assert(m@.contains(Modality::Audio)) by {
                            assert(m@[k as int] == Modality::Audio);
                        }
                    }
                    return true;
                }
                k = k + 1;
            }
            false
        },
        None => false,
    }
}

/// One in-flight response turn: its stable ids, whether audio is
/// streamed, and the text accumulated from the LLM.
pub struct TurnState {
    pub response_id: String,
    pub item_id: String,
    pub audio: bool,
    pub llm_response: String,
    pub has_valid_response: bool,
}

/// A `response.created` event carrying response id `rid` in progress.
pub open spec fn is_response_created(e: ServerEvent, rid: Seq<char>) -> bool {
    e matches ServerEvent::ResponseCreated { event_id: _, response } && ({
        &&& response.id@ == rid
        &&& response.object@ == "realtime.response"@
        &&& response.status@ == "in_progress"@
    })
}

/// A `response.done` event carrying response id `rid` completed.
pub open spec fn is_response_done(e: ServerEvent, rid: Seq<char>) -> bool {
    e matches ServerEvent::ResponseDone { event_id: _, response } && ({
        &&& response.id@ == rid
        &&& response.object@ == "realtime.response"@
        &&& response.status@ == "completed"@
    })
}

/// The opening event sequence of a turn: `response.created`, the
/// assistant output item at index 0, the empty text part at content
/// index 0, and — with audio — the audio part at content index 1.
pub open spec fn begin_events_shape(events: Seq<ServerEvent>, ts: TurnState) -> bool {
    &&& events.len() == (if ts.audio {
        4int
    } else {
        3int
    })
    &&& is_response_created(events[0], ts.response_id@)
    &&& (events[1] matches ServerEvent::ResponseOutputItemAdded {
        event_id: _,
        response_id,
        output_index,
        item,
    } && ({
        &&& response_id@ == ts.response_id@
        &&& output_index == 0
        &&& (item.id matches Some(i) && i@ == ts.item_id@)
        &&& item.item_type@ == "message"@
        &&& (item.status matches Some(st) && st@ == "in_progress"@)
        &&& (item.role matches Some(r) && r@ == "assistant"@)
        &&& (item.content matches Some(c) && c@.len() == 1 && (c@[0] matches ContentPart::Text {
            text,
        } && text@.len() == 0))
    }))
    &&& (events[2] matches ServerEvent::ResponseContentPartAdded {
        event_id: _,
        response_id,
        item_id,
        output_index,
        content_index,
        part,
    } && ({
        &&& response_id@ == ts.response_id@
        &&& item_id@ == ts.item_id@
        &&& output_index == 0
        &&& content_index == 0
        &&& (part matches ContentPart::Text { text } && text@.len() == 0)
    }))
    &&& (ts.audio ==> (events[3] matches ServerEvent::ResponseContentPartAdded {
        event_id: _,
        response_id,
        item_id,
        output_index,
        content_index,
        part,
    } && ({
        &&& response_id@ == ts.response_id@
        &&& item_id@ == ts.item_id@
        &&& output_index == 0
        &&& content_index == 1
        &&& (part matches ContentPart::Audio { audio, transcript } && audio is None && transcript
            is None)
    })))
}

/// Open a response turn.  While the history ends with an assistant
/// record, or a response is already being generated, nothing happens
/// and nothing is emitted.  Otherwise the generation flag is set and
/// the turn opens with fresh response and item ids and the opening
/// event sequence.
pub fn begin_response(s: &mut RealtimeSession) -> (r: Option<(TurnState, Vec<ServerEvent>)>)
    ensures
        (old(s).last_role_assistant() || old(s).is_generating) ==> (r is None && *final(s) == *old(
            s,
        )),
        !(old(s).last_role_assistant() || old(s).is_generating) ==> (r matches Some(p) && ({
            &&& final(s).is_generating == true
            &&& final(s).id == old(s).id
            &&& final(s).config == old(s).config
            &&& final(s).input_audio_buffer == old(s).input_audio_buffer
            &&& final(s).system_prompts == old(s).system_prompts
            &&& final(s).messages == old(s).messages
            &&& p.0.audio == audio_modality(old(s).config)
            &&& p.0.llm_response@ == Seq::<char>::empty()
            &&& p.0.has_valid_response == false
            &&& p.0.response_id@.len() == 36
            &&& p.0.item_id@.len() == 36
            &&& begin_events_shape(p.1@, p.0)
        })),
{
    if s.messages.len() > 0 {
        let last_message = &s.messages[s.messages.len() - 1];
        if last_message.role == Role::Assistant {
            return None;
        }
    }
    let audio = has_audio_modality(&s.config);
    if s.is_generating {
        return None;
    }
    s.is_generating = true;
    let response_id = fresh_id();
    let item_id = fresh_id();
    let ts = TurnState {
        response_id,
        item_id,
        audio,
        llm_response: String::new(),
        has_valid_response: false,
    };
    let mut events: Vec<ServerEvent> = Vec::new();
    events.push(
        ServerEvent::ResponseCreated {
            event_id: fresh_id(),
            response: Response {
                id: ts.response_id.clone(),
                object: String::from_str("realtime.response"),
                status: String::from_str("in_progress"),
            },
        },
    );
    let mut stub_parts: Vec<ContentPart> = Vec::new();
    stub_parts.push(ContentPart::Text { text: String::new() });
    let assistant_item = ConversationItem {
        id: Some(ts.item_id.clone()),
        object: Some(String::from_str("realtime.item")),
        item_type: String::from_str("message"),
        status: Some(String::from_str("in_progress")),
        role: Some(String::from_str("assistant")),
        content: Some(stub_parts),
        call_id: None,
        name: None,
        arguments: None,
        output: None,
    };
    events.push(
        ServerEvent::ResponseOutputItemAdded {
            event_id: fresh_id(),
            response_id: ts.response_id.clone(),
            output_index: 0,
            item: assistant_item,
        },
    );
    events.push(
        ServerEvent::ResponseContentPartAdded {
            event_id: fresh_id(),
            response_id: ts.response_id.clone(),
            item_id: ts.item_id.clone(),
            output_index: 0,
            content_index: 0,
            part: ContentPart::Text { text: String::new() },
        },
    );
    if audio {
        events.push(
            ServerEvent::ResponseContentPartAdded {
                event_id: fresh_id(),
                response_id: ts.response_id.clone(),
                item_id: ts.item_id.clone(),
                output_index: 0,
                content_index: 1,
                part: ContentPart::Audio { audio: None, transcript: None },
            },
        );
    }
    Some((ts, events))
}

/// Take in one LLM text chunk: the text accumulates, the validity flag
/// latches when the chunk has real content, and a single
/// `response.text.delta` event carries the chunk at content index 0
/// under a per-event fresh item id.
pub fn turn_text_chunk(ts: &mut TurnState, chunk: &String) -> (events: Vec<ServerEvent>)
    ensures
        final(ts).response_id == old(ts).response_id,
        final(ts).item_id == old(ts).item_id,
        final(ts).audio == old(ts).audio,
        final(ts).llm_response@ == old(ts).llm_response@ + chunk@,
        final(ts).has_valid_response == (old(ts).has_valid_response || chunk_valid(chunk@)),
        events@.len() == 1,
        (events@[0] matches ServerEvent::ResponseTextDelta {
            event_id: _,
            response_id,
            item_id: _,
            output_index,
            content_index,
            delta,
        } && response_id@ == old(ts).response_id@ && output_index == 0 && content_index == 0
            && delta@ == chunk@),
{
    if chunk_has_content(chunk.as_str()) {
        ts.has_valid_response = true;
    }
    ts.llm_response.append(chunk.as_str());
    let mut events: Vec<ServerEvent> = Vec::new();
    events.push(
        ServerEvent::ResponseTextDelta {
            event_id: fresh_id(),
            response_id: ts.response_id.clone(),
            item_id: fresh_id(),
            output_index: 0,
            content_index: 0,
            delta: chunk.clone(),
        },
    );
    events
}

/// Take in an LLM stream failure: the accumulated text is replaced by
/// the standard fallback and the turn counts as answered, so it still
/// completes cleanly.
pub fn turn_llm_error(ts: &mut TurnState)
    ensures
        final(ts).response_id == old(ts).response_id,
        final(ts).item_id == old(ts).item_id,
        final(ts).audio == old(ts).audio,
        final(ts).llm_response@ == standard_error_text(),
        final(ts).has_valid_response == true,
{
    ts.llm_response = standard_error_response();
    ts.has_valid_response = true;
}

/// The text a turn settles on: the accumulated LLM text, or the
/// standard fallback where no chunk was valid or the whole trims to
/// nothing.
pub open spec fn response_text(ts: TurnState) -> Seq<char> {
    if !ts.has_valid_response || spec_blank(ts.llm_response@) {
        standard_error_text()
    } else {
        ts.llm_response@
    }
}

/// The closing event sequence of a turn settling on `text`:
/// `response.text.done`, the text part done, with audio the audio done
/// pair at content index 1, then the completed assistant item and
/// `response.done`.
pub open spec fn finish_events_shape(events: Seq<ServerEvent>, ts: TurnState, text: Seq<char>) -> bool {
    &&& events.len() == (if ts.audio {
        6int
    } else {
        4int
    })
    &&& (events[0] matches ServerEvent::ResponseTextDone {
        event_id: _,
        response_id,
        item_id: _,
        output_index,
        content_index,
        text: t,
    } && response_id@ == ts.response_id@ && output_index == 0 && content_index == 0 && t@ == text)
    &&& (events[1] matches ServerEvent::ResponseContentPartDone {
        event_id: _,
        response_id,
        item_id,
        output_index,
        content_index,
        part,
    } && ({
        &&& response_id@ == ts.response_id@
        &&& item_id@ == ts.item_id@
        &&& output_index == 0
        &&& content_index == 0
        &&& (part matches ContentPart::Text { text: t } && t@ == text)
    }))
    &&& (ts.audio ==> (events[2] matches ServerEvent::ResponseAudioDone {
        event_id: _,
        response_id,
        item_id,
        output_index,
        content_index,
    } && response_id@ == ts.response_id@ && item_id@ == ts.item_id@ && output_index == 0
        && content_index == 1))
    &&& (ts.audio ==> (events[3] matches ServerEvent::ResponseContentPartDone {
        event_id: _,
        response_id,
        item_id,
        output_index,
        content_index,
        part,
    } && ({
        &&& response_id@ == ts.response_id@
        &&& item_id@ == ts.item_id@
        &&& output_index == 0
        &&& content_index == 1
        &&& (part matches ContentPart::Audio { audio, transcript } && audio is None && (transcript
            matches Some(tr) && tr@ == text))
    })))
    &&& (events[events.len() - 2] matches ServerEvent::ResponseOutputItemDone {
        event_id: _,
        response_id,
        output_index,
        item,
    } && ({
        &&& response_id@ == ts.response_id@
        &&& output_index == 0
        &&& (item.id matches Some(i) && i@ == ts.item_id@)
        &&& item.item_type@ == "message"@
        &&& (item.status matches Some(st) && st@ == "completed"@)
        &&& (item.role matches Some(r) && r@ == "assistant"@)
        &&& (item.content matches Some(c) && ({
            &&& c@.len() == (if ts.audio {
                2int
            } else {
                1int
            })
            &&& (c@[0] matches ContentPart::Text { text: t } && t@ == text)
            &&& (ts.audio ==> (c@[1] matches ContentPart::Audio { audio, transcript } && audio
                is None && (transcript matches Some(tr) && tr@ == text)))
        }))
    }))
    &&& is_response_done(events[events.len() - 1], ts.response_id@)
}

/// Close a response turn: the turn's text settles (falling back to the
/// standard response when nothing valid arrived), one assistant record
/// carrying it joins the history, the generation flag clears, and the
/// closing event sequence leaves.
pub fn finish_response(s: &mut RealtimeSession, ts: TurnState) -> (events: Vec<ServerEvent>)
    ensures
        final(s).is_generating == false,
        final(s).id == old(s).id,
        final(s).config == old(s).config,
        final(s).input_audio_buffer == old(s).input_audio_buffer,
        final(s).system_prompts == old(s).system_prompts,
        pushed_one(old(s).messages@, final(s).messages@, Role::Assistant, response_text(ts)),
        finish_events_shape(events@, ts, response_text(ts)),
{
    let TurnState { response_id, item_id, audio, llm_response, has_valid_response } = ts;
    let text = if !has_valid_response || text_is_blank(llm_response.as_str()) {
        standard_error_response()
    } else {
        llm_response
    };
    let mut events: Vec<ServerEvent> = Vec::new();
    events.push(
        ServerEvent::ResponseTextDone {
            event_id: fresh_id(),
            response_id: response_id.clone(),
            item_id: fresh_id(),
            output_index: 0,
            content_index: 0,
            text: text.clone(),
        },
    );
    events.push(
        ServerEvent::ResponseContentPartDone {
            event_id: fresh_id(),
            response_id: response_id.clone(),
            item_id: item_id.clone(),
            output_index: 0,
            content_index: 0,
            part: ContentPart::Text { text: text.clone() },
        },
    );
    if audio {
        events.push(
            ServerEvent::ResponseAudioDone {
                event_id: fresh_id(),
                response_id: response_id.clone(),
                item_id: item_id.clone(),
                output_index: 0,
                content_index: 1,
            },
        );
        events.push(
            ServerEvent::ResponseContentPartDone {
                event_id: fresh_id(),
                response_id: response_id.clone(),
                item_id: item_id.clone(),
                output_index: 0,
                content_index: 1,
                part: ContentPart::Audio { audio: None, transcript: Some(text.clone()) },
            },
        );
    }
    let mut done_parts: Vec<ContentPart> = Vec::new();
    done_parts.push(ContentPart::Text { text: text.clone() });
    if audio {
        done_parts.push(ContentPart::Audio { audio: None, transcript: Some(text.clone()) });
    }
    let done_item = ConversationItem {
        id: Some(item_id.clone()),
        object: Some(String::from_str("realtime.item")),
        item_type: String::from_str("message"),
        status: Some(String::from_str("completed")),
        role: Some(String::from_str("assistant")),
        content: Some(done_parts),
        call_id: None,
        name: None,
        arguments: None,
        output: None,
    };
    s.add_assistant_message(text);
    s.is_generating = false;
    events.push(
        ServerEvent::ResponseOutputItemDone {
            event_id: fresh_id(),
            response_id: response_id.clone(),
            output_index: 0,
            item: done_item,
        },
    );
    events.push(
        ServerEvent::ResponseDone {
            event_id: fresh_id(),
            response: Response {
                id: response_id,
                object: String::from_str("realtime.response"),
                status: String::from_str("completed"),
            },
        },
    );
    events
}

} // verus!
