use realtime_gateway::events::{ContentPart, Modality, ServerEvent};
use realtime_gateway::handler::{handle_item_create, response_create_gate};
use realtime_gateway::session::{RealtimeSession, Role};
use realtime_gateway::text::extract_text_from_content;
use realtime_gateway::turn::{
    begin_response, finish_response, standard_error_response, turn_llm_error, turn_text_chunk,
};
use realtime_gateway::events::ConversationItem;

const FALLBACK: &str = "抱歉，我没能理解您的回复。请您换种表达方式重新说一下";

fn fresh_session() -> RealtimeSession {
    RealtimeSession::new(Vec::new(), Vec::new())
}

fn audio_session() -> RealtimeSession {
    let mut s = fresh_session();
    s.config.modalities = Some(vec![Modality::Text, Modality::Audio]);
    s
}

fn user_text_item(text: &str) -> ConversationItem {
    ConversationItem {
        id: None,
        object: None,
        item_type: "message".to_string(),
        status: None,
        role: Some("user".to_string()),
        content: Some(vec![ContentPart::Text { text: text.to_string() }]),
        call_id: None,
        name: None,
        arguments: None,
        output: None,
    }
}

#[test]
fn plain_turn_emits_full_lifecycle() {
    let mut s = fresh_session();
    let (mut ts, begin) = begin_response(&mut s).expect("turn must start");
    assert!(s.is_generating);
    assert_eq!(begin.len(), 3);
    match &begin[0] {
        ServerEvent::ResponseCreated { response, .. } => {
            assert_eq!(response.id, ts.response_id);
            assert_eq!(response.status, "in_progress");
            assert_eq!(response.object, "realtime.response");
        }
        other => panic!("expected response.created, got {:?}", other),
    }
    match &begin[1] {
        ServerEvent::ResponseOutputItemAdded { response_id, output_index, item, .. } => {
            assert_eq!(*response_id, ts.response_id);
            assert_eq!(*output_index, 0);
            assert_eq!(item.id.as_ref(), Some(&ts.item_id));
            assert_eq!(item.role.as_deref(), Some("assistant"));
            assert_eq!(item.status.as_deref(), Some("in_progress"));
        }
        other => panic!("expected output_item.added, got {:?}", other),
    }
    match &begin[2] {
        ServerEvent::ResponseContentPartAdded { content_index, part, .. } => {
            assert_eq!(*content_index, 0);
            assert!(matches!(part, ContentPart::Text { text } if text.is_empty()));
        }
        other => panic!("expected content_part.added, got {:?}", other),
    }

    let deltas = turn_text_chunk(&mut ts, &"Hello".to_string());
    assert_eq!(deltas.len(), 1);
    match &deltas[0] {
        ServerEvent::ResponseTextDelta { response_id, content_index, delta, .. } => {
            assert_eq!(*response_id, ts.response_id);
            assert_eq!(*content_index, 0);
            assert_eq!(delta, "Hello");
        }
        other => panic!("expected text delta, got {:?}", other),
    }

    let fin = finish_response(&mut s, ts);
    assert!(!s.is_generating);
    assert_eq!(fin.len(), 4);
    match &fin[0] {
        ServerEvent::ResponseTextDone { text, content_index, .. } => {
            assert_eq!(text, "Hello");
            assert_eq!(*content_index, 0);
        }
        other => panic!("expected text done, got {:?}", other),
    }
    assert!(matches!(&fin[1], ServerEvent::ResponseContentPartDone { content_index: 0, .. }));
    match &fin[2] {
        ServerEvent::ResponseOutputItemDone { item, .. } => {
            assert_eq!(item.status.as_deref(), Some("completed"));
            let content = item.content.as_ref().unwrap();
            assert_eq!(content.len(), 1);
            assert!(matches!(&content[0], ContentPart::Text { text } if text == "Hello"));
        }
        other => panic!("expected output item done, got {:?}", other),
    }
    match &fin[3] {
        ServerEvent::ResponseDone { response, .. } => {
            assert_eq!(response.status, "completed");
        }
        other => panic!("expected response done, got {:?}", other),
    }
    assert_eq!(s.messages.len(), 1, "exactly one assistant record per completed response");
    assert_eq!(s.messages[0].role, Role::Assistant);
    assert_eq!(s.messages[0].message, "Hello");
}

#[test]
fn audio_turn_adds_audio_parts() {
    let mut s = audio_session();
    let (ts, begin) = begin_response(&mut s).expect("turn must start");
    assert!(ts.audio);
    assert_eq!(begin.len(), 4);
    match &begin[3] {
        ServerEvent::ResponseContentPartAdded { content_index, part, .. } => {
            assert_eq!(*content_index, 1);
            assert!(matches!(
                part,
                ContentPart::Audio { audio: None, transcript: None }
            ));
        }
        other => panic!("expected audio part added, got {:?}", other),
    }
    let mut ts = ts;
    let _ = turn_text_chunk(&mut ts, &"Hi".to_string());
    let fin = finish_response(&mut s, ts);
    assert_eq!(fin.len(), 6);
    assert!(matches!(&fin[2], ServerEvent::ResponseAudioDone { content_index: 1, .. }));
    match &fin[3] {
        ServerEvent::ResponseContentPartDone { content_index, part, .. } => {
            assert_eq!(*content_index, 1);
            assert!(matches!(
                part,
                ContentPart::Audio { audio: None, transcript: Some(t) } if t == "Hi"
            ));
        }
        other => panic!("expected audio part done, got {:?}", other),
    }
}

#[test]
fn double_generation_is_rejected() {
    let mut s = fresh_session();
    let _ = begin_response(&mut s).expect("first turn must start");
    let gate = response_create_gate(&s).expect("second request must be refused");
    match gate {
        ServerEvent::Error { error, .. } => {
            assert_eq!(error.code.as_deref(), Some("response_in_progress"));
            assert!(error.param.is_none());
        }
        other => panic!("expected error, got {:?}", other),
    }
    assert!(begin_response(&mut s).is_none(), "no second turn while generating");
}

#[test]
fn llm_failure_falls_back_to_standard_response() {
    let mut s = fresh_session();
    let (mut ts, _) = begin_response(&mut s).expect("turn must start");
    turn_llm_error(&mut ts);
    let fin = finish_response(&mut s, ts);
    match &fin[0] {
        ServerEvent::ResponseTextDone { text, .. } => assert_eq!(text, FALLBACK),
        other => panic!("expected text done, got {:?}", other),
    }
    assert!(matches!(&fin[3], ServerEvent::ResponseDone { .. }));
    assert_eq!(s.messages[0].message, FALLBACK);
}

#[test]
fn blank_and_placeholder_chunks_fall_back() {
    let mut s = fresh_session();
    let (mut ts, _) = begin_response(&mut s).unwrap();
    let _ = turn_text_chunk(&mut ts, &"()".to_string());
    let _ = turn_text_chunk(&mut ts, &"  ".to_string());
    let _ = turn_text_chunk(&mut ts, &"[]".to_string());
    assert!(!ts.has_valid_response);
    let fin = finish_response(&mut s, ts);
    match &fin[0] {
        ServerEvent::ResponseTextDone { text, .. } => assert_eq!(text, FALLBACK),
        other => panic!("expected text done, got {:?}", other),
    }
}

#[test]
fn real_chunk_keeps_accumulated_text() {
    let mut s = fresh_session();
    let (mut ts, _) = begin_response(&mut s).unwrap();
    let _ = turn_text_chunk(&mut ts, &"(".to_string());
    let _ = turn_text_chunk(&mut ts, &"fine)".to_string());
    assert!(ts.has_valid_response);
    let fin = finish_response(&mut s, ts);
    match &fin[0] {
        ServerEvent::ResponseTextDone { text, .. } => assert_eq!(text, "(fine)"),
        other => panic!("expected text done, got {:?}", other),
    }
}

#[test]
fn standard_error_response_text() {
    assert_eq!(standard_error_response(), FALLBACK);
}

#[test]
fn no_turn_after_assistant_message() {
    let mut s = fresh_session();
    let (ts, _) = begin_response(&mut s).unwrap();
    let _ = finish_response(&mut s, ts);
    assert!(begin_response(&mut s).is_none(), "history ends with assistant");
}

#[test]
fn item_create_round_trip_then_turn() {
    let mut s = fresh_session();
    let events = handle_item_create(&mut s, None, user_text_item("hi"));
    assert_eq!(events.len(), 1);
    match &events[0] {
        ServerEvent::ConversationItemCreated { item, .. } => {
            let content = item.content.as_ref().unwrap();
            assert!(matches!(&content[0], ContentPart::Text { text } if text == "hi"));
        }
        other => panic!("expected item created, got {:?}", other),
    }
    assert_eq!(s.messages.len(), 1);
    assert_eq!(s.messages[0].role, Role::User);
    assert_eq!(s.messages[0].message, "hi");
    let (mut ts, _) = begin_response(&mut s).expect("turn must start");
    let _ = turn_text_chunk(&mut ts, &"hello there".to_string());
    let _ = finish_response(&mut s, ts);
    assert_eq!(s.messages.len(), 2);
    assert_eq!(s.messages[1].role, Role::Assistant);
    assert_eq!(s.messages[1].message, "hello there");
}

#[test]
fn function_call_items_update_history() {
    let mut s = fresh_session();
    let call_item = ConversationItem {
        id: Some("call-1".to_string()),
        object: None,
        item_type: "function_call".to_string(),
        status: None,
        role: None,
        content: None,
        call_id: None,
        name: Some("lookup".to_string()),
        arguments: Some("{\"q\":1}".to_string()),
        output: None,
    };
    let _ = handle_item_create(&mut s, None, call_item);
    assert_eq!(s.messages.len(), 1);
    assert_eq!(s.messages[0].role, Role::Assistant);
    let calls = s.messages[0].tool_calls.as_ref().unwrap();
    assert_eq!(calls.len(), 1);
    assert_eq!(calls[0].id, "call-1");
    assert_eq!(calls[0].call_type, "function");
    assert_eq!(calls[0].function.name, "lookup");
    assert_eq!(calls[0].function.arguments, "{\"q\":1}");

    let output_item = ConversationItem {
        id: Some("call-1".to_string()),
        object: None,
        item_type: "function_call_output".to_string(),
        status: None,
        role: None,
        content: None,
        call_id: None,
        name: None,
        arguments: None,
        output: Some("42".to_string()),
    };
    let _ = handle_item_create(&mut s, None, output_item);
    assert_eq!(s.messages.len(), 2);
    assert_eq!(s.messages[1].role, Role::Tool);
    assert_eq!(s.messages[1].message, "42");
    assert_eq!(s.messages[1].tool_call_id.as_deref(), Some("call-1"));
}

#[test]
fn system_item_updates_first_prompt() {
    let mut prompts = Vec::new();
    prompts.push(realtime_gateway::session::ChatMessage {
        role: Role::System,
        message: "old".to_string(),
        tool_calls: None,
        tool_call_id: None,
    });
    let mut s = RealtimeSession::new(prompts, Vec::new());
    let item = ConversationItem {
        id: None,
        object: None,
        item_type: "message".to_string(),
        status: None,
        role: Some("system".to_string()),
        content: Some(vec![ContentPart::Text { text: "new rules".to_string() }]),
        call_id: None,
        name: None,
        arguments: None,
        output: None,
    };
    let _ = handle_item_create(&mut s, None, item);
    assert_eq!(s.system_prompts[0].message, "new rules");
    assert!(s.messages.is_empty());
}

#[test]
fn extract_text_joins_with_single_spaces() {
    let parts = vec![
        ContentPart::Text { text: "a".to_string() },
        ContentPart::InputText { text: "b".to_string() },
        ContentPart::InputAudio { audio: "xxxx".to_string(), transcript: Some("c".to_string()) },
        ContentPart::Audio { audio: None, transcript: None },
        ContentPart::Audio { audio: None, transcript: Some("d".to_string()) },
    ];
    assert_eq!(extract_text_from_content(&parts), "a b c d");
    let empty: Vec<ContentPart> = Vec::new();
    assert_eq!(extract_text_from_content(&empty), "");
}
