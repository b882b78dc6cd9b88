use gnome_voice_input::negotiate::{
    find_best_config, find_best_config_with_priority, select, CaptureConfig, ChosenFormat,
    DeviceCapability, NegotiationError, SampleFormat,
};

fn cap(channels: u16, min_rate: u32, max_rate: u32, format: SampleFormat) -> DeviceCapability {
    DeviceCapability { channels, min_rate, max_rate, format }
}

fn mono(preferred: Option<u32>) -> CaptureConfig {
    CaptureConfig { target_sample_rate: 16000, target_channels: 1, chunk_duration_ms: 25, preferred_rate: preferred }
}

#[test]
fn matching_entry_rate_lies_in_its_range() {
    let caps = vec![
        cap(2, 8000, 48000, SampleFormat::F32),
        cap(1, 44100, 48000, SampleFormat::I16),
    ];
    let chosen = select(&caps, &mono(None)).unwrap();
    assert_eq!(chosen.channels, 1);
    assert_eq!(chosen.format, SampleFormat::I16);
    assert!(chosen.sample_rate >= 44100 && chosen.sample_rate <= 48000);
    assert_eq!(chosen.sample_rate, 44100);
}

#[test]
fn no_matching_channel_count_fails() {
    let caps = vec![cap(2, 8000, 48000, SampleFormat::F32), cap(6, 8000, 48000, SampleFormat::I16)];
    assert_eq!(select(&caps, &mono(None)), Err(NegotiationError::NoCompatibleDevice));
}

#[test]
fn empty_capability_list_fails() {
    assert_eq!(select(&vec![], &mono(None)), Err(NegotiationError::NoCompatibleDevice));
}

#[test]
fn unsupported_format_only_fails() {
    let caps = vec![cap(1, 8000, 48000, SampleFormat::Unsupported)];
    assert_eq!(select(&caps, &mono(None)), Err(NegotiationError::NoCompatibleDevice));
}

#[test]
fn preferred_rate_inside_range_is_used_exactly() {
    let caps = vec![cap(1, 8000, 96000, SampleFormat::I16)];
    let chosen = select(&caps, &mono(Some(22050))).unwrap();
    assert_eq!(chosen, ChosenFormat { sample_rate: 22050, channels: 1, format: SampleFormat::I16 });
}

#[test]
fn rate_clamps_to_nearest_bound() {
    let low = vec![cap(1, 8000, 11025, SampleFormat::F32)];
    assert_eq!(select(&low, &mono(None)).unwrap().sample_rate, 11025);
    let high = vec![cap(1, 44100, 96000, SampleFormat::F32)];
    assert_eq!(select(&high, &mono(None)).unwrap().sample_rate, 44100);
}

#[test]
fn format_order_is_f32_i32_i16_u16_u8() {
    let order = [SampleFormat::U8, SampleFormat::U16, SampleFormat::I16, SampleFormat::I32, SampleFormat::F32];
    for k in 0..order.len() {
        let caps: Vec<DeviceCapability> = order[..=k].iter().map(|f| cap(1, 16000, 16000, *f)).collect();
        assert_eq!(select(&caps, &mono(None)).unwrap().format, order[k]);
    }
}

#[test]
fn exact_rate_beats_better_format_far_away() {
    // 32000 Hz away costs 32 points, more than the 15 between F32 and I16.
    let caps = vec![cap(1, 48000, 48000, SampleFormat::F32), cap(1, 16000, 16000, SampleFormat::I16)];
    assert_eq!(select(&caps, &mono(None)).unwrap().format, SampleFormat::I16);
}

#[test]
fn better_format_wins_near_rate() {
    // 1000 Hz away costs 1 point, less than the 15 between F32 and I16.
    let caps = vec![cap(1, 16000, 16000, SampleFormat::I16), cap(1, 17000, 17000, SampleFormat::F32)];
    let chosen = select(&caps, &mono(None)).unwrap();
    assert_eq!(chosen.format, SampleFormat::F32);
    assert_eq!(chosen.sample_rate, 17000);
}

#[test]
fn ties_go_to_the_first_entry() {
    let caps = vec![cap(1, 8000, 15000, SampleFormat::I16), cap(1, 17000, 20000, SampleFormat::I16)];
    assert_eq!(select(&caps, &mono(None)).unwrap().sample_rate, 15000);
}

#[test]
fn declared_format_is_kept() {
    let caps = vec![cap(1, 8000, 48000, SampleFormat::U8)];
    assert_eq!(select(&caps, &mono(None)).unwrap().format, SampleFormat::U8);
}

#[test]
fn target_rate_used_without_preference() {
    let caps = vec![cap(1, 8000, 48000, SampleFormat::F32)];
    assert_eq!(find_best_config(&caps, 44100, 1).unwrap().sample_rate, 44100);
    assert_eq!(find_best_config_with_priority(&caps, 1).unwrap().sample_rate, 16000);
    assert_eq!(find_best_config_with_priority(&caps, 2), Err(NegotiationError::NoCompatibleDevice));
}
