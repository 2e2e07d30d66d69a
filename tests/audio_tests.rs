use keyboard_warriors::synth::{
    asset_file_name, piano_notes, plan_asset, plan_tone, render_tone, sample_count, tone_sample, AssetAction,
    ToneError, SAMPLE_RATE, TONE_DURATION_MS,
};
use keyboard_warriors::wave::{encode_wav, WavError};

#[test]
fn sample_count_is_rounded_product() {
    assert_eq!(sample_count(SAMPLE_RATE, TONE_DURATION_MS), 66150);
    assert_eq!(sample_count(44100, 1), 44);
    assert_eq!(sample_count(1000, 3), 3);
    assert_eq!(sample_count(500, 1), 1);
    assert_eq!(sample_count(499, 1), 0);
}

#[test]
fn invalid_tone_parameters_are_rejected() {
    assert_eq!(plan_tone(0, 1500, 44100), Err(ToneError::NonPositiveFrequency));
    assert_eq!(plan_tone(26163, 0, 44100), Err(ToneError::NonPositiveDuration));
    assert_eq!(plan_tone(26163, 1500, 44100), Ok(66150));
}

#[test]
fn tone_samples_are_weighted_and_rounded() {
    assert_eq!(tone_sample(0, 0, 0), 0);
    assert_eq!(tone_sample(1_000_000, 0, 0), 3932);
    assert_eq!(tone_sample(-1_000_000, -1_000_000, -1_000_000), -6553);
    assert_eq!(tone_sample(i32::MAX, i32::MAX, i32::MAX), 32767);
    assert_eq!(tone_sample(i32::MIN, i32::MIN, i32::MIN), -32767);
}

#[test]
fn tone_buffer_is_stereo() {
    let h = vec![(0, 0, 0), (1_000_000, 0, 0), (0, 0, 1_000_000)];
    let buf = render_tone(&h);
    assert_eq!(buf, vec![0, 0, 3932, 3932, 655, 655]);
}

#[test]
fn wav_header_is_canonical() {
    let bytes = encode_wav(&vec![1, -1, 256, -256], 44100, 2).unwrap();
    let expected: Vec<u8> = vec![
        b'R', b'I', b'F', b'F', 44, 0, 0, 0, b'W', b'A', b'V', b'E', b'f', b'm', b't', b' ', 16, 0, 0, 0, 1, 0, 2,
        0, 0x44, 0xac, 0, 0, 0x10, 0xb1, 0x02, 0, 4, 0, 16, 0, b'd', b'a', b't', b'a', 8, 0, 0, 0, 1, 0, 0xff,
        0xff, 0, 1, 0, 0xff,
    ];
    assert_eq!(bytes, expected);
}

#[test]
fn wav_header_fields_agree() {
    let samples: Vec<i16> = vec![7; 66150 * 2];
    let b = encode_wav(&samples, 44100, 2).unwrap();
    let le32 = |o: usize| u32::from_le_bytes([b[o], b[o + 1], b[o + 2], b[o + 3]]);
    assert_eq!(le32(4), 36 + le32(40));
    assert_eq!(le32(40), 66150 * 2 * 2);
    assert_eq!(le32(28), 44100 * 2 * 2);
    assert_eq!(b.len(), 44 + 66150 * 4);
}

#[test]
fn wav_errors() {
    assert_eq!(encode_wav(&vec![1, 2], 44100, 0), Err(WavError::NoChannels));
    assert_eq!(encode_wav(&vec![1, 2, 3], 44100, 2), Err(WavError::PartialFrame));
    assert_eq!(encode_wav(&vec![1, 2], u32::MAX, 2), Err(WavError::FormatOverflow));
    assert_eq!(encode_wav(&vec![1, 2], 44100, 40000), Err(WavError::PartialFrame));
    assert_eq!(encode_wav(&vec![0; 40000], 44100, 40000), Err(WavError::FormatOverflow));
}

#[test]
fn asset_names_are_file_safe() {
    assert_eq!(asset_file_name("C#4"), "Cs4.wav");
    assert_eq!(asset_file_name("A4"), "A4.wav");
}

#[test]
fn existing_assets_are_skipped() {
    assert_eq!(plan_asset(true), AssetAction::Skip);
    assert_eq!(plan_asset(false), AssetAction::Write);
}

#[test]
fn note_table_has_two_octaves_of_names() {
    let notes = piano_notes().notes;
    assert_eq!(notes.len(), 14);
    assert_eq!(notes[0], (String::from("C4"), 26163));
    assert_eq!(notes[9], (String::from("A4"), 44000));
    assert_eq!(notes[13], (String::from("C#5"), 55437));
}
