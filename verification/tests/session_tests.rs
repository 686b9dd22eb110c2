use base64::Engine;
use realtime_gateway::events::{
    AudioFormat, Modality, ServerEvent, SessionConfig, TurnDetection, TurnDetectionKind,
};
use realtime_gateway::handler::{
    handle_audio_append, handle_buffer_clear, handle_response_cancel, handle_session_update,
    initial_events,
};
use realtime_gateway::commit::begin_commit;
use realtime_gateway::session::RealtimeSession;

fn b64(bytes: &[u8]) -> String {
    base64::prelude::BASE64_STANDARD.encode(bytes)
}

fn fresh_session() -> RealtimeSession {
    RealtimeSession::new(Vec::new(), Vec::new())
}

fn empty_config() -> SessionConfig {
    SessionConfig::default()
}

#[test]
fn initial_events_open_with_defaults() {
    let s = fresh_session();
    assert_eq!(s.id.len(), 36);
    let events = initial_events(&s);
    assert_eq!(events.len(), 2);
    match &events[0] {
        ServerEvent::SessionCreated { session, .. } => {
            assert_eq!(session.id, s.id);
            assert_eq!(session.object, "realtime.session");
            assert_eq!(session.model, "gpt-4o-realtime-preview");
            assert_eq!(session.modalities, vec![Modality::Text, Modality::Audio]);
            assert_eq!(session.voice, "default");
            assert_eq!(session.input_audio_format, AudioFormat::Pcm16);
            assert_eq!(session.output_audio_format, AudioFormat::Pcm16);
            assert_eq!(session.temperature_tenths, Some(8));
            assert_eq!(session.tool_choice.as_deref(), Some("auto"));
            assert_eq!(
                session.turn_detection,
                Some(TurnDetection { kind: TurnDetectionKind::Disabled, create_response: None })
            );
        }
        other => panic!("expected session.created, got {:?}", other),
    }
    match &events[1] {
        ServerEvent::ConversationCreated { conversation, .. } => {
            assert_eq!(conversation.object, "realtime.conversation");
            assert_eq!(conversation.id.len(), 36);
        }
        other => panic!("expected conversation.created, got {:?}", other),
    }
}

#[test]
fn session_update_stores_config_and_echoes_session() {
    let mut s = fresh_session();
    let mut config = empty_config();
    config.instructions = Some("Be brief.".to_string());
    config.modalities = Some(vec![Modality::Text]);
    let model = "my-model".to_string();
    let voice = "my-voice".to_string();
    let events = handle_session_update(&mut s, config, &model, &voice);
    assert_eq!(events.len(), 1);
    match &events[0] {
        ServerEvent::SessionUpdated { session, .. } => {
            assert_eq!(session.id, s.id);
            assert_eq!(session.model, "my-model");
            assert_eq!(session.voice, "my-voice");
            assert_eq!(session.instructions, "Be brief.");
            assert_eq!(session.modalities, vec![Modality::Text]);
            assert_eq!(session.input_audio_format, AudioFormat::Pcm16);
        }
        other => panic!("expected session.updated, got {:?}", other),
    }
    assert_eq!(s.config.instructions.as_deref(), Some("Be brief."));
}

#[test]
fn partial_update_merges_into_stored_config() {
    let mut s = fresh_session();
    let model = "m".to_string();
    let voice = "v".to_string();
    let mut first = empty_config();
    first.instructions = Some("Stay polite.".to_string());
    first.temperature_tenths = Some(5);
    let _ = handle_session_update(&mut s, first, &model, &voice);
    let mut second = empty_config();
    second.modalities = Some(vec![Modality::Text]);
    let events = handle_session_update(&mut s, second, &model, &voice);
    assert_eq!(
        s.config.instructions.as_deref(),
        Some("Stay polite."),
        "a later partial update must keep fields it leaves unset"
    );
    assert_eq!(s.config.temperature_tenths, Some(5));
    assert_eq!(s.config.modalities, Some(vec![Modality::Text]));
    match &events[0] {
        ServerEvent::SessionUpdated { session, .. } => {
            assert_eq!(session.instructions, "Stay polite.");
            assert_eq!(session.modalities, vec![Modality::Text]);
            assert_eq!(session.temperature_tenths, Some(5));
        }
        other => panic!("expected session.updated, got {:?}", other),
    }
}

#[test]
fn unsupported_input_format_is_rejected() {
    let mut s = fresh_session();
    let mut config = empty_config();
    config.input_audio_format = Some(AudioFormat::G711Ulaw);
    let model = "m".to_string();
    let voice = "v".to_string();
    let events = handle_session_update(&mut s, config, &model, &voice);
    assert_eq!(events.len(), 1);
    match &events[0] {
        ServerEvent::Error { error, .. } => {
            assert_eq!(error.error_type, "invalid_request_error");
            assert_eq!(error.code.as_deref(), Some("unsupported_audio_format"));
            assert_eq!(error.param.as_deref(), Some("input_audio_format"));
        }
        other => panic!("expected error, got {:?}", other),
    }
    assert!(s.config.input_audio_format.is_none(), "rejected update must not mutate state");
}

#[test]
fn unsupported_output_format_is_rejected() {
    let mut s = fresh_session();
    let mut config = empty_config();
    config.output_audio_format = Some(AudioFormat::G711Alaw);
    let events = handle_session_update(&mut s, config, &"m".to_string(), &"v".to_string());
    match &events[0] {
        ServerEvent::Error { error, .. } => {
            assert_eq!(error.code.as_deref(), Some("unsupported_audio_format"));
            assert_eq!(error.param.as_deref(), Some("output_audio_format"));
        }
        other => panic!("expected error, got {:?}", other),
    }
}

#[test]
fn server_vad_turn_detection_is_rejected() {
    let mut s = fresh_session();
    let mut config = empty_config();
    config.turn_detection =
        Some(TurnDetection { kind: TurnDetectionKind::ServerVad, create_response: None });
    let events = handle_session_update(&mut s, config, &"m".to_string(), &"v".to_string());
    match &events[0] {
        ServerEvent::Error { error, .. } => {
            assert_eq!(error.code.as_deref(), Some("unsupported_turn_detection"));
            assert_eq!(error.param.as_deref(), Some("turn_detection.type"));
        }
        other => panic!("expected error, got {:?}", other),
    }
    assert!(s.config.turn_detection.is_none());
}

#[test]
fn append_extends_buffer_with_decoded_bytes() {
    let mut s = fresh_session();
    assert!(handle_audio_append(&mut s, &b64(&[1, 2, 3])));
    assert!(handle_audio_append(&mut s, &b64(&[4, 5])));
    assert_eq!(s.input_audio_buffer, vec![1, 2, 3, 4, 5]);
}

#[test]
fn append_rejects_invalid_base64() {
    let mut s = fresh_session();
    assert!(!handle_audio_append(&mut s, "!!!not base64!!!"));
    assert!(s.input_audio_buffer.is_empty());
}

#[test]
fn clear_empties_buffer_and_later_commit_sees_only_new_audio() {
    let mut s = fresh_session();
    assert!(handle_audio_append(&mut s, &b64(&[9, 9, 9, 9])));
    let events = handle_buffer_clear(&mut s);
    assert_eq!(events.len(), 1);
    assert!(matches!(events[0], ServerEvent::InputAudioBufferCleared { .. }));
    assert!(s.input_audio_buffer.is_empty());
    assert!(handle_audio_append(&mut s, &b64(&[7, 8])));
    let ticket = begin_commit(&mut s, None).expect("non-empty commit");
    assert_eq!(ticket.pcm, vec![7, 8], "commit must be unaffected by cleared audio");
}

#[test]
fn cancel_clears_generating_and_interrupts() {
    let mut s = fresh_session();
    s.is_generating = true;
    let events = handle_response_cancel(&mut s);
    assert!(!s.is_generating);
    assert_eq!(events.len(), 1);
    assert!(matches!(events[0], ServerEvent::ConversationInterrupted { .. }));
}
