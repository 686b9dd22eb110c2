use base64::Engine;
use realtime_gateway::audio::{wav_audio_deltas, wav_wrap, StreamFramer};
use realtime_gateway::events::ServerEvent;

fn decode(delta: &str) -> Vec<u8> {
    base64::prelude::BASE64_STANDARD.decode(delta).unwrap()
}

fn delta_payload(e: &ServerEvent) -> (u32, Vec<u8>) {
    match e {
        ServerEvent::ResponseAudioDelta { content_index, delta, .. } => {
            (*content_index, decode(delta))
        }
        other => panic!("expected audio delta, got {:?}", other),
    }
}

#[test]
fn stream_framer_cuts_ten_thousand_bytes_into_three_frames_and_a_tail() {
    let mut framer = StreamFramer::new("rid".to_string(), "iid".to_string());
    let chunk: Vec<u8> = (0..10_000u32).map(|i| (i % 251) as u8).collect();
    let events = framer.push_chunk(&chunk);
    assert_eq!(events.len(), 3);
    for (k, e) in events.iter().enumerate() {
        let (ci, payload) = delta_payload(e);
        assert_eq!(ci, 1);
        assert_eq!(payload.len(), 3200);
        assert_eq!(payload, chunk[k * 3200..(k + 1) * 3200].to_vec());
    }
    let tail = framer.finish().expect("a 400 byte residual remains");
    let (ci, payload) = delta_payload(&tail);
    assert_eq!(ci, 1);
    assert_eq!(payload.len(), 400);
    assert_eq!(payload, chunk[9600..].to_vec());
}

#[test]
fn stream_framer_carries_residual_across_chunks() {
    let mut framer = StreamFramer::new("rid".to_string(), "iid".to_string());
    let first: Vec<u8> = vec![7u8; 2000];
    let second: Vec<u8> = vec![9u8; 2000];
    assert!(framer.push_chunk(&first).is_empty(), "2000 bytes are below one frame");
    let events = framer.push_chunk(&second);
    assert_eq!(events.len(), 1);
    let (_, payload) = delta_payload(&events[0]);
    assert_eq!(payload.len(), 3200);
    assert_eq!(&payload[..2000], &first[..]);
    assert_eq!(&payload[2000..], &second[..1200]);
    let tail = framer.finish().expect("800 bytes remain");
    let (_, payload) = delta_payload(&tail);
    assert_eq!(payload.len(), 800);
}

#[test]
fn stream_framer_with_no_residual_finishes_silently() {
    let mut framer = StreamFramer::new("rid".to_string(), "iid".to_string());
    let chunk: Vec<u8> = vec![1u8; 6400];
    let events = framer.push_chunk(&chunk);
    assert_eq!(events.len(), 2);
    assert!(framer.finish().is_none());
}

#[test]
fn wav_deltas_cut_samples_into_half_second_frames() {
    let samples: Vec<i16> = (0..10_000).map(|i| (i % 1000) as i16).collect();
    let events = wav_audio_deltas(&"rid".to_string(), &"iid".to_string(), &samples);
    assert_eq!(events.len(), 2);
    let (ci, first) = delta_payload(&events[0]);
    assert_eq!(ci, 1);
    assert_eq!(first.len(), 16_000, "8000 samples, two bytes each");
    let (_, second) = delta_payload(&events[1]);
    assert_eq!(second.len(), 4_000, "the final frame may be short");
    // Little-endian serialization: sample 0x0102 becomes [0x02, 0x01].
    let samples2: Vec<i16> = vec![0x0102, -2];
    let events2 = wav_audio_deltas(&"r".to_string(), &"i".to_string(), &samples2);
    let (_, payload) = delta_payload(&events2[0]);
    assert_eq!(payload, vec![0x02, 0x01, 0xFE, 0xFF]);
}

#[test]
fn wav_deltas_of_empty_samples_are_empty() {
    let samples: Vec<i16> = Vec::new();
    let events = wav_audio_deltas(&"r".to_string(), &"i".to_string(), &samples);
    assert!(events.is_empty());
}

#[test]
fn wav_wrap_produces_riff_header() {
    let pcm: Vec<u8> = vec![0xAA, 0xBB];
    let wav = wav_wrap(&pcm, 16_000);
    assert_eq!(wav.len(), 46);
    assert_eq!(&wav[0..4], b"RIFF");
    assert_eq!(&wav[8..12], b"WAVE");
    assert_eq!(&wav[12..16], b"fmt ");
    assert_eq!(u32::from_le_bytes([wav[24], wav[25], wav[26], wav[27]]), 16_000);
    assert_eq!(u32::from_le_bytes([wav[28], wav[29], wav[30], wav[31]]), 32_000);
    assert_eq!(&wav[36..40], b"data");
    assert_eq!(u32::from_le_bytes([wav[40], wav[41], wav[42], wav[43]]), 2);
    assert_eq!(&wav[44..], &[0xAA, 0xBB]);
}
