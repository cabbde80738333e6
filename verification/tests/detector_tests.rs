use rustpotter::{Rustpotter, RustpotterConfig, SampleFormat};
use voclip::audio::FrameBuffer;
use voclip::detector::{
    all_detections, build_reference_file, first_invalid_recording, next_detection, Detector,
    MIN_REFERENCE_SAMPLES,
};
use voclip::wakeword::{TrainingSession, VoiceAction, VoicePattern};
use voclip::error::VoclipError;
use voclip::wav::{encode_wav, wav_sample_count};

fn tone(freq: f32, secs: f32) -> Vec<i16> {
    let n = (16000.0 * secs) as usize;
    (0..n)
        .map(|i| {
            let t = i as f32 / 16000.0;
            let env = if (i / 1600) % 2 == 0 { 0.8 } else { 0.3 };
            ((2.0 * std::f32::consts::PI * freq * t).sin() * env * 12000.0) as i16
        })
        .collect()
}

fn detector() -> Detector {
    let mut config = RustpotterConfig::default();
    config.fmt.sample_rate = 16000;
    config.fmt.sample_format = SampleFormat::I16;
    config.fmt.channels = 1;
    Detector::new(Rustpotter::new(&config).unwrap())
}

#[test]
fn reference_file_from_a_training_session() {
    let mut session = TrainingSession::new(3);
    for f in [300.0, 320.0, 340.0] {
        let wav = encode_wav(&tone(f, 1.0), 16000);
        assert!(session.review("", wav));
    }
    assert!(session.is_complete());
    let file = build_reference_file("hey test", session.into_samples()).expect("a reference");
    assert!(!file.bytes().is_empty());
    let reference = <rustpotter::WakewordRef as rustpotter::WakewordLoad>::load_from_buffer(
        &file.into_bytes(),
    )
    .expect("a readable reference");
    assert_eq!(reference.name, "hey test");
    assert_eq!(reference.mfcc_size, 16);
    let mut names: Vec<&String> = reference.samples_features.keys().collect();
    names.sort();
    assert_eq!(names, vec!["sample_1.wav", "sample_2.wav", "sample_3.wav"]);
}

#[test]
fn silence_gives_no_detection_and_leaves_less_than_a_frame() {
    let mut d = detector();
    let size = d.spotter().get_samples_per_frame();
    assert!(size > 0);
    let patterns = vec![VoicePattern {
        name: "Computer".to_string(),
        path: "/nonexistent.rpw".to_string(),
        action: VoiceAction::Transcribe,
    }];
    let mut buffer = FrameBuffer::new();
    buffer.push(&vec![0i16; size * 3 + 5]);
    assert!(next_detection(&mut d, &mut buffer, size, &patterns, &vec![true]).is_none());
    assert_eq!(buffer.len(), 5);
    buffer.push(&vec![0i16; size * 2]);
    let found = all_detections(&mut d, &mut buffer, size);
    assert!(found.is_empty());
    assert_eq!(buffer.len(), 5);
}

#[test]
fn no_recordings_give_the_empty_reference_error() {
    match build_reference_file("nothing", Vec::new()) {
        Err(VoclipError::WakeWord(m)) => {
            assert_eq!(m, "Can not create an empty wakeword")
        }
        _ => panic!("expected a wake word error"),
    }
}

#[test]
fn a_recording_too_short_to_train_on_is_refused_by_name() {
    let good = encode_wav(&tone(300.0, 1.0), 16000);
    let short = encode_wav(&tone(300.0, 0.05), 16000);
    let recordings = vec![
        ("one.wav".to_string(), good.clone()),
        ("two.wav".to_string(), short),
        ("three.wav".to_string(), vec![1, 2, 3]),
    ];
    assert_eq!(first_invalid_recording(&recordings), Some(1));
    match build_reference_file("hey test", recordings) {
        Err(VoclipError::WakeWord(m)) => {
            assert_eq!(m, "Recording is not a 16 kHz mono WAV of at least 60 ms: two.wav")
        }
        _ => panic!("expected a wake word error"),
    }
}

#[test]
fn a_recording_at_another_rate_is_refused() {
    let other_rate = encode_wav(&tone(300.0, 1.0), 44100);
    let recordings = vec![("a.wav".to_string(), other_rate)];
    assert_eq!(first_invalid_recording(&recordings), Some(0));
    assert!(build_reference_file("x", recordings).is_err());
}

#[test]
fn the_shortest_trainable_recording_is_accepted() {
    let wav = encode_wav(&tone(300.0, 0.06), 16000);
    assert_eq!(wav_sample_count(&wav, 16000), Some(MIN_REFERENCE_SAMPLES));
    let recordings = vec![("a.wav".to_string(), wav)];
    assert_eq!(first_invalid_recording(&recordings), None);
    assert!(build_reference_file("x", recordings).is_ok());
}

#[test]
fn wav_sample_count_reads_what_encode_wav_writes() {
    let wav = encode_wav(&[1, 2, 3], 16000);
    assert_eq!(wav_sample_count(&wav, 16000), Some(3));
    assert_eq!(wav_sample_count(&wav, 8000), None);
    assert_eq!(wav_sample_count(&wav[..wav.len() - 1], 16000), None);
    assert_eq!(wav_sample_count(&[], 16000), None);
}

#[test]
fn every_frame_of_silence_is_fed_in_order() {
    let mut d = detector();
    let size = d.spotter().get_samples_per_frame();
    let mut buffer = FrameBuffer::new();
    buffer.push(&vec![0i16; size * 4]);
    let found = all_detections(&mut d, &mut buffer, size);
    assert!(found.is_empty());
    assert_eq!(buffer.len(), 0);
}
