use base64::Engine;
use realtime_gateway::commit::{begin_commit, commit_silence, commit_transcribed};
use realtime_gateway::events::{ContentPart, ServerEvent, TurnDetection, TurnDetectionKind};
use realtime_gateway::handler::handle_audio_append;
use realtime_gateway::session::{RealtimeSession, Role};

fn b64(bytes: &[u8]) -> String {
    base64::prelude::BASE64_STANDARD.encode(bytes)
}

fn session_with_audio(pcm: &[u8]) -> RealtimeSession {
    let mut s = RealtimeSession::new(Vec::new(), Vec::new());
    assert!(handle_audio_append(&mut s, &b64(pcm)));
    s
}

#[test]
fn empty_commit_produces_nothing() {
    let mut s = RealtimeSession::new(Vec::new(), Vec::new());
    assert!(begin_commit(&mut s, None).is_none());
    assert!(s.input_audio_buffer.is_empty());
}

#[test]
fn commit_takes_buffer_and_emits_committed() {
    let mut s = session_with_audio(&[1, 2, 3, 4]);
    let ticket = begin_commit(&mut s, None).expect("non-empty commit");
    assert!(s.input_audio_buffer.is_empty(), "commit must take the buffer");
    assert_eq!(ticket.pcm, vec![1, 2, 3, 4]);
    assert_eq!(ticket.item_id.len(), 36);
    assert_eq!(ticket.events.len(), 1);
    match &ticket.events[0] {
        ServerEvent::InputAudioBufferCommitted { item_id, previous_item_id, .. } => {
            assert_eq!(*item_id, ticket.item_id);
            assert!(previous_item_id.is_none());
        }
        other => panic!("expected committed, got {:?}", other),
    }
}

#[test]
fn commit_wav_wraps_at_24khz() {
    let mut s = session_with_audio(&[1, 2, 3, 4]);
    let ticket = begin_commit(&mut s, None).unwrap();
    let expected: Vec<u8> = vec![
        0x52, 0x49, 0x46, 0x46, // "RIFF"
        40, 0, 0, 0, // 4 + 36
        0x57, 0x41, 0x56, 0x45, // "WAVE"
        0x66, 0x6d, 0x74, 0x20, // "fmt "
        16, 0, 0, 0, // fmt chunk size
        1, 0, // PCM
        1, 0, // mono
        0xC0, 0x5D, 0, 0, // 24000
        0x80, 0xBB, 0, 0, // 48000 bytes per second
        2, 0, // block align
        16, 0, // bits per sample
        0x64, 0x61, 0x74, 0x61, // "data"
        4, 0, 0, 0, // data length
        1, 2, 3, 4,
    ];
    assert_eq!(ticket.wav, expected);
}

#[test]
fn silent_commit_completes_with_empty_transcript() {
    let mut s = session_with_audio(&[5, 6]);
    let history_before = s.messages.len();
    let ticket = begin_commit(&mut s, None).unwrap();
    let events = commit_silence(&ticket);
    assert_eq!(events.len(), 1);
    match &events[0] {
        ServerEvent::ConversationItemInputAudioTranscriptionCompleted {
            item_id,
            content_index,
            transcript,
            ..
        } => {
            assert_eq!(*item_id, ticket.item_id);
            assert_eq!(*content_index, 0);
            assert_eq!(transcript, "");
        }
        other => panic!("expected transcription completed, got {:?}", other),
    }
    assert_eq!(s.messages.len(), history_before, "silence must not touch the history");
}

#[test]
fn transcribed_commit_records_user_message_and_events() {
    let mut s = session_with_audio(&[1, 2, 3, 4, 5, 6]);
    let ticket = begin_commit(&mut s, None).unwrap();
    let segments = vec!["hello".to_string(), "world".to_string()];
    let (events, create_response) = commit_transcribed(&mut s, &ticket, &segments);
    assert!(create_response, "create_response defaults to true");
    assert_eq!(events.len(), 2);
    match &events[0] {
        ServerEvent::ConversationItemCreated { item, previous_item_id, .. } => {
            assert!(previous_item_id.is_none());
            assert_eq!(item.id.as_ref(), Some(&ticket.item_id));
            assert_eq!(item.item_type, "message");
            assert_eq!(item.role.as_deref(), Some("user"));
            assert_eq!(item.status.as_deref(), Some("completed"));
            let content = item.content.as_ref().expect("content");
            assert_eq!(content.len(), 1);
            match &content[0] {
                ContentPart::InputAudio { audio, transcript } => {
                    let decoded = base64::prelude::BASE64_STANDARD.decode(audio).unwrap();
                    assert_eq!(decoded, vec![1, 2, 3, 4, 5, 6], "audio must round-trip");
                    assert_eq!(transcript.as_deref(), Some("hello\nworld"));
                }
                other => panic!("expected input audio part, got {:?}", other),
            }
        }
        other => panic!("expected item created, got {:?}", other),
    }
    match &events[1] {
        ServerEvent::ConversationItemInputAudioTranscriptionCompleted {
            item_id, transcript, ..
        } => {
            assert_eq!(*item_id, ticket.item_id);
            assert_eq!(transcript, "hello\nworld");
        }
        other => panic!("expected transcription completed, got {:?}", other),
    }
    assert_eq!(s.messages.len(), 1, "exactly one user record per transcribed commit");
    assert_eq!(s.messages[0].role, Role::User);
    assert_eq!(s.messages[0].message, "hello\nworld");
}

#[test]
fn transcribed_commit_honours_create_response_false() {
    let mut s = session_with_audio(&[1, 2]);
    s.config.turn_detection =
        Some(TurnDetection { kind: TurnDetectionKind::Disabled, create_response: Some(false) });
    let ticket = begin_commit(&mut s, None).unwrap();
    let (_, create_response) = commit_transcribed(&mut s, &ticket, &vec!["hi".to_string()]);
    assert!(!create_response);
}

#[test]
fn commit_keeps_given_item_id() {
    let mut s = session_with_audio(&[1]);
    let ticket = begin_commit(&mut s, Some("given-id".to_string())).unwrap();
    assert_eq!(ticket.item_id, "given-id");
}
