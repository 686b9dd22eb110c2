//! Dispatch of inbound client events: validation of `session.update`,
//! buffer append and clear, conversation items, the `response.create`
//! gate, cancellation, and the two events opening a connection.
use vstd::prelude::*;
use vstd::pervasive::VecAdditionalExecFns;
use vstd::string::StringExecFns;
use crate::events::{
    AudioFormat, Conversation, ConversationItem, ErrorDetails, Modality, ServerEvent, Session,
    SessionConfig, TurnDetection, TurnDetectionKind,
};
use crate::outside::{base64_decoding, decode_base64, fresh_id};
use crate::session::{ChatMessage, RealtimeSession, Role};
use crate::text::{extract_text_from_content, joined_text};

verus! {

broadcast use vstd::string::group_string_axioms;

/// An `error` event of type `invalid_request_error` with the given
/// code and parameter and no causal event id.
pub open spec fn is_error_event(e: ServerEvent, code: Seq<char>, param: Option<Seq<char>>) -> bool {
    e matches ServerEvent::Error { event_id: _, error } && ({
        &&& error.error_type@ == "invalid_request_error"@
        &&& (error.code matches Some(c) && c@ == code)
        &&& (match param {
            Some(p) => error.param matches Some(q) && q@ == p,
            None => error.param is None,
        })
        &&& error.event_id is None
    })
}

/// The configuration names an input format other than PCM16.
pub open spec fn bad_input_format(c: SessionConfig) -> bool {
    c.input_audio_format matches Some(f) && f != AudioFormat::Pcm16
}

/// The configuration names an output format other than PCM16.
pub open spec fn bad_output_format(c: SessionConfig) -> bool {
    c.output_audio_format matches Some(f) && f != AudioFormat::Pcm16
}

/// The configuration asks for server-side VAD turn detection.
pub open spec fn bad_turn_detection(c: SessionConfig) -> bool {
    c.turn_detection matches Some(td) && td.kind == TurnDetectionKind::ServerVad
}

/// The configuration is rejected by `session.update` validation.
pub open spec fn config_rejected(c: SessionConfig) -> bool {
    bad_input_format(c) || bad_output_format(c) || bad_turn_detection(c)
}

/// The stored configuration after an accepted update: each field takes
/// the update's value where the update sets it and keeps the prior
/// value where it leaves it unset.
pub open spec fn merged_config(prior: SessionConfig, update: SessionConfig) -> SessionConfig {
    SessionConfig {
        modalities: if update.modalities is Some {
            update.modalities
        } else {
            prior.modalities
        },
        instructions: if update.instructions is Some {
            update.instructions
        } else {
            prior.instructions
        },
        input_audio_format: if update.input_audio_format is Some {
            update.input_audio_format
        } else {
            prior.input_audio_format
        },
        output_audio_format: if update.output_audio_format is Some {
            update.output_audio_format
        } else {
            prior.output_audio_format
        },
        input_audio_transcription: if update.input_audio_transcription is Some {
            update.input_audio_transcription
        } else {
            prior.input_audio_transcription
        },
        turn_detection: if update.turn_detection is Some {
            update.turn_detection
        } else {
            prior.turn_detection
        },
        tools: if update.tools is Some {
            update.tools
        } else {
            prior.tools
        },
        tool_choice: if update.tool_choice is Some {
            update.tool_choice
        } else {
            prior.tool_choice
        },
        temperature_tenths: if update.temperature_tenths is Some {
            update.temperature_tenths
        } else {
            prior.temperature_tenths
        },
        max_output_tokens: if update.max_output_tokens is Some {
            update.max_output_tokens
        } else {
            prior.max_output_tokens
        },
    }
}

/// `sess` is the effective session echoed after a successful update:
/// the stored configuration with the protocol's defaults filled in,
/// the model from the LLM settings and the voice from the TTS settings.
pub open spec fn effective_session(
    sess: Session,
    id: String,
    c: SessionConfig,
    model: String,
    voice: String,
) -> bool {
    &&& sess.id == id
    &&& sess.object@ == "realtime.session"@
    &&& sess.model == model
    &&& (match c.modalities {
        Some(m) => sess.modalities@ == m@,
        None => sess.modalities@ == seq![Modality::Text, Modality::Audio],
    })
    &&& (match c.instructions {
        Some(i) => sess.instructions == i,
        None => sess.instructions@ == "You are a helpful assistant."@,
    })
    &&& sess.voice == voice
    &&& sess.input_audio_format == (match c.input_audio_format {
        Some(f) => f,
        None => AudioFormat::Pcm16,
    })
    &&& sess.output_audio_format == (match c.output_audio_format {
        Some(f) => f,
        None => AudioFormat::Pcm16,
    })
    &&& sess.input_audio_transcription == c.input_audio_transcription
    &&& sess.turn_detection == c.turn_detection
    &&& sess.tools == c.tools
    &&& sess.tool_choice == c.tool_choice
    &&& sess.temperature_tenths == c.temperature_tenths
    &&& sess.max_output_tokens == c.max_output_tokens
}

/// Copy an optional string.
fn clone_opt_string(s: &Option<String>) -> (r: Option<String>)
    ensures
        r == *s,
{
    match s {
        Some(x) => Some(x.clone()),
        None => None,
    }
}

/// Copy a modality list.
fn clone_modalities(v: &Vec<Modality>) -> (r: Vec<Modality>)
    ensures
        r@ == v@,
{
    let mut out: Vec<Modality> = Vec::new();
    let mut k: usize = 0;
    while k < v.len()
        invariant
            0 <= k <= v@.len(),
            out@ == v@.subrange(0, k as int),
        decreases v@.len() - k,
    {
        out.push(v[k]);
        proof {
            assert(v@.subrange(0, k + 1) =~= v@.subrange(0, k as int).push(v@[k as int]));
        }
        k = k + 1;
    }
    proof {
        assert(v@.subrange(0, v@.len() as int) =~= v@);
    }
    out
}

/// Build an `error` event for a rejected request.
fn make_error(code: &str, message: &str, param: Option<String>) -> (e: ServerEvent)
    ensures
        is_error_event(
            e,
            code@,
            match param {
                Some(p) => Some(p@),
                None => None,
            },
        ),
{
    ServerEvent::Error {
        event_id: fresh_id(),
        error: ErrorDetails {
            error_type: String::from_str("invalid_request_error"),
            code: Some(String::from_str(code)),
            message: String::from_str(message),
            param,
            event_id: None,
        },
    }
}

/// Apply `session.update`.  A configuration naming a non-PCM16 format
/// or server VAD is rejected with the matching `error` event and the
/// state stays as it was; otherwise the update is merged into the
/// stored configuration, field by field where the update sets one, and
/// a `session.updated` event echoes the effective merged session.
pub fn handle_session_update(
    s: &mut RealtimeSession,
    config: SessionConfig,
    model: &String,
    tts_voice: &String,
) -> (events: Vec<ServerEvent>)
    ensures
        events@.len() == 1,
        config_rejected(config) ==> *final(s) == *old(s),
        bad_input_format(config) ==> is_error_event(
            events@[0],
            "unsupported_audio_format"@,
            Some("input_audio_format"@),
        ),
        !bad_input_format(config) && bad_output_format(config) ==> is_error_event(
            events@[0],
            "unsupported_audio_format"@,
            Some("output_audio_format"@),
        ),
        !bad_input_format(config) && !bad_output_format(config) && bad_turn_detection(config)
            ==> is_error_event(
            events@[0],
            "unsupported_turn_detection"@,
            Some("turn_detection.type"@),
        ),
        !config_rejected(config) ==> ({
            &&& final(s).config == merged_config(old(s).config, config)
            &&& final(s).id == old(s).id
            &&& final(s).input_audio_buffer == old(s).input_audio_buffer
            &&& final(s).is_generating == old(s).is_generating
            &&& final(s).system_prompts == old(s).system_prompts
            &&& final(s).messages == old(s).messages
            &&& (events@[0] matches ServerEvent::SessionUpdated { event_id: _, session }
                && effective_session(
                    session,
                    old(s).id,
                    merged_config(old(s).config, config),
                    *model,
                    *tts_voice,
                ))
        }),
{
    let mut events: Vec<ServerEvent> = Vec::new();
    if let Some(f) = &config.input_audio_format {
        if !(*f == AudioFormat::Pcm16) {
            events.push(
                make_error(
                    "unsupported_audio_format",
                    "Only PCM16 input audio format is supported",
                    Some(String::from_str("input_audio_format")),
                ),
            );
            return events;
        }
    }
    if let Some(f) = &config.output_audio_format {
        if !(*f == AudioFormat::Pcm16) {
            events.push(
                make_error(
                    "unsupported_audio_format",
                    "Only PCM16 output audio format is supported",
                    Some(String::from_str("output_audio_format")),
                ),
            );
            return events;
        }
    }
    if let Some(td) = &config.turn_detection {
        if td.kind == TurnDetectionKind::ServerVad {
            events.push(
                make_error(
                    "unsupported_turn_detection",
                    "Server VAD turn detection is not supported",
                    Some(String::from_str("turn_detection.type")),
                ),
            );
            return events;
        }
    }
    let mut prior = SessionConfig::default();
    core::mem::swap(&mut prior, &mut s.config);
    let merged = SessionConfig {
        modalities: if config.modalities.is_some() {
            config.modalities
        } else {
            prior.modalities
        },
        instructions: if config.instructions.is_some() {
            config.instructions
        } else {
            prior.instructions
        },
        input_audio_format: if config.input_audio_format.is_some() {
            config.input_audio_format
        } else {
            prior.input_audio_format
        },
        output_audio_format: if config.output_audio_format.is_some() {
            config.output_audio_format
        } else {
            prior.output_audio_format
        },
        input_audio_transcription: if config.input_audio_transcription.is_some() {
            config.input_audio_transcription
        } else {
            prior.input_audio_transcription
        },
        turn_detection: if config.turn_detection.is_some() {
            config.turn_detection
        } else {
            prior.turn_detection
        },
        tools: if config.tools.is_some() {
            config.tools
        } else {
            prior.tools
        },
        tool_choice: if config.tool_choice.is_some() {
            config.tool_choice
        } else {
            prior.tool_choice
        },
        temperature_tenths: if config.temperature_tenths.is_some() {
            config.temperature_tenths
        } else {
            prior.temperature_tenths
        },
        max_output_tokens: if config.max_output_tokens.is_some() {
            config.max_output_tokens
        } else {
            prior.max_output_tokens
        },
    };
    let modalities = match &merged.modalities {
        Some(m) => clone_modalities(m),
        None => {
            let mut d: Vec<Modality> = Vec::new();
            d.push(Modality::Text);
            d.push(Modality::Audio);
            proof {
                assert(d@ =~= seq![Modality::Text, Modality::Audio]);
            }
            d
        },
    };
    let instructions = match &merged.instructions {
        Some(i) => i.clone(),
        None => String::from_str("You are a helpful assistant."),
    };
    let input_format = match &merged.input_audio_format {
        Some(f) => *f,
        None => AudioFormat::Pcm16,
    };
    let output_format = match &merged.output_audio_format {
        Some(f) => *f,
        None => AudioFormat::Pcm16,
    };
    let updated = Session {
        id: s.id.clone(),
        object: String::from_str("realtime.session"),
        model: model.clone(),
        modalities,
        instructions,
        voice: tts_voice.clone(),
        input_audio_format: input_format,
        output_audio_format: output_format,
        input_audio_transcription: clone_opt_string(&merged.input_audio_transcription),
        turn_detection: merged.turn_detection,
        tools: clone_opt_string(&merged.tools),
        tool_choice: clone_opt_string(&merged.tool_choice),
        temperature_tenths: merged.temperature_tenths,
        max_output_tokens: merged.max_output_tokens,
    };
    s.config = merged;
    events.push(ServerEvent::SessionUpdated { event_id: fresh_id(), session: updated });
    events
}

/// Apply `input_audio_buffer.append`: decode the base64 payload and
/// extend the pending buffer.  Invalid base64 changes nothing and
/// reports failure to the caller; no event leaves either way.
pub fn handle_audio_append(s: &mut RealtimeSession, audio: &str) -> (ok: bool)
    ensures
        match base64_decoding(audio@) {
            Some(b) => ok && final(s).input_audio_buffer@ == old(s).input_audio_buffer@ + b
                && RealtimeSession::same_but_buffer(*old(s), *final(s)),
            None => !ok && *final(s) == *old(s),
        },
{
    match decode_base64(audio) {
        Some(mut decoded) => {
            s.input_audio_buffer.append(&mut decoded);
            true
        },
        None => false,
    }
}

/// Apply `input_audio_buffer.clear`: the buffer empties and a single
/// `input_audio_buffer.cleared` event leaves.
pub fn handle_buffer_clear(s: &mut RealtimeSession) -> (events: Vec<ServerEvent>)
    ensures
        final(s).input_audio_buffer@ == Seq::<u8>::empty(),
        RealtimeSession::same_but_buffer(*old(s), *final(s)),
        events@.len() == 1,
        events@[0] is InputAudioBufferCleared,
{
    s.input_audio_buffer.clear();
    let mut events: Vec<ServerEvent> = Vec::new();
    events.push(ServerEvent::InputAudioBufferCleared { event_id: fresh_id() });
    events
}

/// Apply `response.cancel`: generation stops being marked and a single
/// `conversation.interrupted` event leaves.
pub fn handle_response_cancel(s: &mut RealtimeSession) -> (events: Vec<ServerEvent>)
    ensures
        final(s).is_generating == false,
        final(s).id == old(s).id,
        final(s).config == old(s).config,
        final(s).input_audio_buffer == old(s).input_audio_buffer,
        final(s).system_prompts == old(s).system_prompts,
        final(s).messages == old(s).messages,
        events@.len() == 1,
        events@[0] is ConversationInterrupted,
{
    s.is_generating = false;
    let mut events: Vec<ServerEvent> = Vec::new();
    events.push(ServerEvent::ConversationInterrupted { event_id: fresh_id() });
    events
}

/// The guard on `response.create`: while a response is underway the
/// request gets a `response_in_progress` error back and nothing else
/// may happen; otherwise the caller may start the turn.
pub fn response_create_gate(s: &RealtimeSession) -> (r: Option<ServerEvent>)
    ensures
        s.is_generating ==> (r matches Some(e) && is_error_event(
            e,
            "response_in_progress"@,
            None,
        )),
        !s.is_generating ==> r is None,
{
    if s.is_generating {
        Some(make_error("response_in_progress", "A response is already being generated", None))
    } else {
        None
    }
}

/// The history grew by exactly one record of `role` whose text is
/// `text`, carrying no tool call data.
pub open spec fn pushed_one(
    old_m: Seq<ChatMessage>,
    new_m: Seq<ChatMessage>,
    role: Role,
    text: Seq<char>,
) -> bool {
    &&& new_m.len() == old_m.len() + 1
    &&& new_m == old_m.push(new_m.last())
    &&& new_m.last().role == role
    &&& new_m.last().message@ == text
    &&& new_m.last().tool_calls is None
    &&& new_m.last().tool_call_id is None
}

/// The history grew by exactly one assistant record carrying a single
/// tool call of the given id, name and arguments.
pub open spec fn pushed_tool_call(
    old_m: Seq<ChatMessage>,
    new_m: Seq<ChatMessage>,
    id: Seq<char>,
    name: Seq<char>,
    arguments: Seq<char>,
) -> bool {
    &&& new_m.len() == old_m.len() + 1
    &&& new_m == old_m.push(new_m.last())
    &&& new_m.last().role == Role::Assistant
    &&& new_m.last().message@ == Seq::<char>::empty()
    &&& new_m.last().tool_call_id is None
    &&& (new_m.last().tool_calls matches Some(tc) && ({
        &&& tc@.len() == 1
        &&& tc@[0].id@ == id
        &&& tc@[0].call_type@ == "function"@
        &&& tc@[0].function.name@ == name
        &&& tc@[0].function.arguments@ == arguments
    }))
}

/// The history grew by exactly one tool record carrying `output` under
/// the call id of the item.
pub open spec fn pushed_tool_output(
    old_m: Seq<ChatMessage>,
    new_m: Seq<ChatMessage>,
    output: Seq<char>,
    call_id: Option<String>,
) -> bool {
    &&& new_m.len() == old_m.len() + 1
    &&& new_m == old_m.push(new_m.last())
    &&& new_m.last().role == Role::Tool
    &&& new_m.last().message@ == output
    &&& new_m.last().tool_calls is None
    &&& new_m.last().tool_call_id == call_id
}

/// Only the text of the first system prompt changed, to `text`.
pub open spec fn first_prompt_updated(
    old_p: Seq<ChatMessage>,
    new_p: Seq<ChatMessage>,
    text: Seq<char>,
) -> bool {
    &&& old_p.len() > 0
    &&& new_p.len() == old_p.len()
    &&& new_p[0].role == old_p[0].role
    &&& new_p[0].message@ == text
    &&& new_p[0].tool_calls == old_p[0].tool_calls
    &&& new_p[0].tool_call_id == old_p[0].tool_call_id
    &&& forall|i: int| 1 <= i < old_p.len() ==> new_p[i] == old_p[i]
}

/// The item is a message with the given role.
pub open spec fn is_message_with_role(item: ConversationItem, role: Seq<char>) -> bool {
    item.item_type@ == "message"@ && (item.role matches Some(r) && r@ == role)
}

/// Apply `conversation.item.create`: the history is updated from the
/// item's shape and a `conversation.item.created` event echoes the
/// item unchanged under the given previous item id.
pub fn handle_item_create(
    s: &mut RealtimeSession,
    previous_item_id: Option<String>,
    item: ConversationItem,
) -> (events: Vec<ServerEvent>)
    ensures
        final(s).id == old(s).id,
        final(s).config == old(s).config,
        final(s).input_audio_buffer == old(s).input_audio_buffer,
        final(s).is_generating == old(s).is_generating,
        events@.len() == 1,
        (events@[0] matches ServerEvent::ConversationItemCreated {
            event_id: _,
            previous_item_id: p,
            item: it,
        } && p == previous_item_id && it == item),
        (is_message_with_role(item, "user"@) && item.content is Some) ==> ({
            &&& pushed_one(
                old(s).messages@,
                final(s).messages@,
                Role::User,
                joined_text(item.content->0@),
            )
            &&& final(s).system_prompts == old(s).system_prompts
        }),
        (is_message_with_role(item, "assistant"@) && item.content is Some) ==> ({
            &&& pushed_one(
                old(s).messages@,
                final(s).messages@,
                Role::Assistant,
                joined_text(item.content->0@),
            )
            &&& final(s).system_prompts == old(s).system_prompts
        }),
        (is_message_with_role(item, "system"@) && item.content is Some && old(
            s,
        ).system_prompts@.len() > 0) ==> ({
            &&& final(s).messages == old(s).messages
            &&& first_prompt_updated(
                old(s).system_prompts@,
                final(s).system_prompts@,
                joined_text(item.content->0@),
            )
        }),
        (item.item_type@ == "function_call"@ && item.arguments is Some) ==> ({
            &&& pushed_tool_call(
                old(s).messages@,
                final(s).messages@,
                match item.id {
                    Some(i) => i@,
                    None => Seq::<char>::empty(),
                },
                match item.name {
                    Some(n) => n@,
                    None => Seq::<char>::empty(),
                },
                item.arguments->0@,
            )
            &&& final(s).system_prompts == old(s).system_prompts
        }),
        (item.item_type@ == "function_call_output"@ && item.output is Some) ==> ({
            &&& pushed_tool_output(
                old(s).messages@,
                final(s).messages@,
                item.output->0@,
                item.id,
            )
            &&& final(s).system_prompts == old(s).system_prompts
        }),
        (item_is_inert(item, old(s).system_prompts@.len() as int)) ==> (final(s).messages == old(
            s,
        ).messages && final(s).system_prompts == old(s).system_prompts),
{
    proof {
        reveal_strlit("message");
        reveal_strlit("function_call");
        reveal_strlit("function_call_output");
        reveal_strlit("user");
        reveal_strlit("assistant");
        reveal_strlit("system");
        assert("user"@.len() == 4 && "system"@.len() == 6 && "assistant"@.len() == 9);
        assert("message"@.len() == 7 && "function_call"@.len() == 13 && "function_call_output"@.len()
            == 20);
        assert("user"@ != "assistant"@ && "user"@ != "system"@ && "assistant"@ != "system"@);
        assert("message"@ != "function_call"@ && "message"@ != "function_call_output"@);
        assert("function_call"@ != "function_call_output"@);
    }
    let lit_message = String::from_str("message");
    let lit_function_call = String::from_str("function_call");
    let lit_function_call_output = String::from_str("function_call_output");
    let lit_user = String::from_str("user");
    let lit_assistant = String::from_str("assistant");
    let lit_system = String::from_str("system");
    if item.item_type == lit_message {
        match &item.role {
            Some(role) => {
                if *role == lit_user {
                    if let Some(content) = &item.content {
                        let text = extract_text_from_content(content.as_slice());
                        s.add_user_message(text);
                    }
                } else if *role == lit_assistant {
                    if let Some(content) = &item.content {
                        let text = extract_text_from_content(content.as_slice());
                        s.add_assistant_message(text);
                    }
                } else if *role == lit_system {
                    if let Some(content) = &item.content {
                        if s.system_prompts.len() > 0 {
                            let text = extract_text_from_content(content.as_slice());
                            let mut extracted = ChatMessage {
                                role: Role::System,
                                message: String::new(),
                                tool_calls: None,
                                tool_call_id: None,
                            };
                            s.system_prompts.set_and_swap(0, &mut extracted);
                            let updated = ChatMessage {
                                role: extracted.role,
                                message: text,
                                tool_calls: extracted.tool_calls,
                                tool_call_id: extracted.tool_call_id,
                            };
                            s.system_prompts.set(0, updated);
                        }
                    }
                }
            },
            None => {},
        }
    } else if item.item_type == lit_function_call {
        if let Some(arguments) = &item.arguments {
            let call_id = match &item.id {
                Some(i) => i.clone(),
                None => String::new(),
            };
            let fn_name = match &item.name {
                Some(n) => n.clone(),
                None => String::new(),
            };
            let mut calls: Vec<crate::session::ToolCall> = Vec::new();
            calls.push(
                crate::session::ToolCall {
                    id: call_id,
                    call_type: String::from_str("function"),
                    function: crate::session::ToolFunction {
                        name: fn_name,
                        arguments: arguments.clone(),
                    },
                },
            );
            s.messages.push(
                ChatMessage {
                    role: Role::Assistant,
                    message: String::new(),
                    tool_calls: Some(calls),
                    tool_call_id: None,
                },
            );
        }
    } else if item.item_type == lit_function_call_output {
        if let Some(output) = &item.output {
            s.messages.push(
                ChatMessage {
                    role: Role::Tool,
                    message: output.clone(),
                    tool_calls: None,
                    tool_call_id: clone_opt_string(&item.id),
                },
            );
        }
    }
    let mut events: Vec<ServerEvent> = Vec::new();
    events.push(
        ServerEvent::ConversationItemCreated { event_id: fresh_id(), previous_item_id, item },
    );
    events
}

/// The item's shape leaves the history untouched: an unknown type, a
/// message with no recognized role or no content, a system message
/// while no system prompt exists, or a call item missing its payload.
pub open spec fn item_is_inert(item: ConversationItem, n_prompts: int) -> bool {
    if item.item_type@ == "message"@ {
        match item.role {
            Some(r) => {
                if r@ == "user"@ || r@ == "assistant"@ {
                    item.content is None
                } else if r@ == "system"@ {
                    item.content is None || n_prompts == 0
                } else {
                    true
                }
            },
            None => true,
        }
    } else if item.item_type@ == "function_call"@ {
        item.arguments is None
    } else if item.item_type@ == "function_call_output"@ {
        item.output is None
    } else {
        true
    }
}

/// The session record sent in `session.created` on connect: the
/// protocol's defaults under the session's id.
pub open spec fn default_session(sess: Session, id: String) -> bool {
    &&& sess.id == id
    &&& sess.object@ == "realtime.session"@
    &&& sess.model@ == "gpt-4o-realtime-preview"@
    &&& sess.modalities@ == seq![Modality::Text, Modality::Audio]
    &&& sess.instructions@ == "You are a helpful assistant."@
    &&& sess.voice@ == "default"@
    &&& sess.input_audio_format == AudioFormat::Pcm16
    &&& sess.output_audio_format == AudioFormat::Pcm16
    &&& sess.input_audio_transcription is None
    &&& sess.turn_detection == Some(
        TurnDetection { kind: TurnDetectionKind::Disabled, create_response: None },
    )
    &&& sess.tools is None
    &&& (sess.tool_choice matches Some(tc) && tc@ == "auto"@)
    &&& sess.temperature_tenths == Some(8u32)
    &&& sess.max_output_tokens is None
}

/// The two events opening a connection, in order: `session.created`
/// with the default session, then `conversation.created` with a fresh
/// conversation id.
pub fn initial_events(s: &RealtimeSession) -> (events: Vec<ServerEvent>)
    ensures
        events@.len() == 2,
        (events@[0] matches ServerEvent::SessionCreated { event_id: _, session }
            && default_session(session, s.id)),
        (events@[1] matches ServerEvent::ConversationCreated { event_id: _, conversation }
            && conversation.object@ == "realtime.conversation"@),
{
    let mut modalities: Vec<Modality> = Vec::new();
    modalities.push(Modality::Text);
    modalities.push(Modality::Audio);
    proof {
        assert(modalities@ =~= seq![Modality::Text, Modality::Audio]);
    }
    let session = Session {
        id: s.id.clone(),
        object: String::from_str("realtime.session"),
        model: String::from_str("gpt-4o-realtime-preview"),
        modalities,
        instructions: String::from_str("You are a helpful assistant."),
        voice: String::from_str("default"),
        input_audio_format: AudioFormat::Pcm16,
        output_audio_format: AudioFormat::Pcm16,
        input_audio_transcription: None,
        turn_detection: Some(
            TurnDetection { kind: TurnDetectionKind::Disabled, create_response: None },
        ),
        tools: None,
        tool_choice: Some(String::from_str("auto")),
        temperature_tenths: Some(8u32),
        max_output_tokens: None,
    };
    let mut events: Vec<ServerEvent> = Vec::new();
    events.push(ServerEvent::SessionCreated { event_id: fresh_id(), session });
    events.push(
        ServerEvent::ConversationCreated {
            event_id: fresh_id(),
            conversation: Conversation {
                id: fresh_id(),
                object: String::from_str("realtime.conversation"),
            },
        },
    );
    events
}

} // verus!
