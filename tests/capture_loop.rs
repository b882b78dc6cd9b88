use gnome_voice_input::capture::{CaptureAction, CaptureEvent, CaptureLoop, StopReason};
use gnome_voice_input::negotiate::{ChosenFormat, SampleFormat};
use gnome_voice_input::sample::{decode_pcm, RawSample};

fn session() -> CaptureLoop {
    // 16 kHz in 1 ms chunks: 16 samples per chunk.
    CaptureLoop::new(ChosenFormat { sample_rate: 16000, channels: 1, format: SampleFormat::I16 }, 1)
}

fn stopped(a: &CaptureAction) -> Option<StopReason> {
    match a {
        CaptureAction::Stop(r) => Some(*r),
        _ => None,
    }
}

#[test]
fn cancellation_stops_before_recording_flag() {
    let mut s = session();
    let a = s.step(CaptureEvent::Check { cancelled: true, recording: false });
    assert_eq!(stopped(&a), Some(StopReason::Cancelled));
}

#[test]
fn recording_off_stops_the_loop() {
    let mut s = session();
    assert!(matches!(s.step(CaptureEvent::Check { cancelled: false, recording: true }), CaptureAction::Wait));
    let a = s.step(CaptureEvent::Check { cancelled: false, recording: false });
    assert_eq!(stopped(&a), Some(StopReason::RecordingStopped));
}

#[test]
fn timeout_keeps_waiting() {
    let mut s = session();
    assert!(matches!(s.step(CaptureEvent::Timeout), CaptureAction::Wait));
}

#[test]
fn samples_become_chunks_in_order() {
    let mut s = session();
    let batch: Vec<RawSample> = (0..40).map(|i| RawSample::I16(i * 100)).collect();
    match s.step(CaptureEvent::Samples(batch)) {
        CaptureAction::Deliver(chunks) => {
            assert_eq!(chunks.len(), 2);
            let first = decode_pcm(&chunks[0]);
            let second = decode_pcm(&chunks[1]);
            assert_eq!(first.len(), 16);
            assert_eq!(first[1], 100);
            assert_eq!(second[0], 1600);
        }
        _ => panic!("expected chunks"),
    }
    assert_eq!(s.chunker.pending_len(), 8);
    let tail = s.finish().unwrap();
    assert_eq!(decode_pcm(&tail).len(), 8);
    assert_eq!(s.finish(), None);
}

#[test]
fn closed_sink_is_terminal() {
    let mut s = session();
    assert_eq!(stopped(&s.step(CaptureEvent::SinkClosed)), Some(StopReason::SinkClosed));
    let again = s.step(CaptureEvent::Samples(vec![RawSample::I16(1); 32]));
    assert_eq!(stopped(&again), Some(StopReason::SinkClosed));
    assert_eq!(s.chunker.pending_len(), 0);
}

#[test]
fn closed_source_stops() {
    let mut s = session();
    assert_eq!(stopped(&s.step(CaptureEvent::SourceClosed)), Some(StopReason::SourceClosed));
}

#[test]
fn u8_samples_are_normalized() {
    let mut s = session();
    match s.step(CaptureEvent::Samples(vec![RawSample::U8(192); 16])) {
        CaptureAction::Deliver(chunks) => {
            assert_eq!(chunks.len(), 1);
            assert!(decode_pcm(&chunks[0]).iter().all(|v| *v == 16384));
        }
        _ => panic!("expected chunks"),
    }
}
