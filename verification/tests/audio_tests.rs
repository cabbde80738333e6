use voclip::audio::{find_device_by_name, to_mono_i16, AudioBatcher, FrameBuffer, MIN_BATCH_SAMPLES};
use voclip::error::VoclipError;
use voclip::wav::{encode_wav, samples_to_le_bytes};

#[test]
fn mono_passes_single_channel_through() {
    let data = vec![1i16, -2, 3, i16::MIN, i16::MAX];
    assert_eq!(to_mono_i16(&data, 1), data);
}

#[test]
fn mono_averages_frames_rounding_toward_zero() {
    assert_eq!(to_mono_i16(&[1, 2, -1, -2, 10, 20], 2), vec![1, -1, 15]);
    assert_eq!(to_mono_i16(&[i16::MAX, i16::MAX, i16::MIN, i16::MIN], 2), vec![i16::MAX, i16::MIN]);
    assert_eq!(to_mono_i16(&[3, 3, 3, 7], 3), vec![3, 2]);
    assert_eq!(to_mono_i16(&[], 2), Vec::<i16>::new());
}

#[test]
fn device_found_by_case_insensitive_substring() {
    let devices = vec!["default".to_string(), "HDA Intel PCH".to_string(), "USB Mic".to_string()];
    assert_eq!(find_device_by_name(&devices, "intel").unwrap(), 1);
    assert_eq!(find_device_by_name(&devices, "usb MIC").unwrap(), 2);
    assert_eq!(find_device_by_name(&devices, "").unwrap(), 0);
}

#[test]
fn missing_device_is_an_audio_device_error() {
    let devices = vec!["default".to_string()];
    match find_device_by_name(&devices, "Blue") {
        Err(VoclipError::AudioDevice(m)) => assert_eq!(
            m,
            "No input device matching \"Blue\". Use --list-devices to see available devices."
        ),
        _ => panic!("expected an audio device error"),
    }
}

#[test]
fn frames_come_out_in_order() {
    let mut fb = FrameBuffer::new();
    fb.push(&[1, 2, 3]);
    assert_eq!(fb.pop_frame(4), None);
    fb.push(&[4, 5]);
    assert_eq!(fb.pop_frame(4), Some(vec![1, 2, 3, 4]));
    assert_eq!(fb.len(), 1);
    fb.push(&[6, 7, 8]);
    assert_eq!(fb.pop_frame(4), Some(vec![5, 6, 7, 8]));
    assert_eq!(fb.len(), 0);
    fb.push(&[9]);
    fb.clear();
    assert_eq!(fb.len(), 0);
}

#[test]
fn batches_carry_all_audio_in_order() {
    let mut b = AudioBatcher::new();
    let first: Vec<i16> = (0..1000).map(|x| x as i16).collect();
    let second: Vec<i16> = (1000..1700).map(|x| x as i16).collect();
    let third: Vec<i16> = vec![-1, -2, -3];
    assert_eq!(b.push(&first), None);
    let batch = b.push(&second).expect("a full batch");
    let mut all = first.clone();
    all.extend_from_slice(&second);
    assert!(all.len() >= MIN_BATCH_SAMPLES);
    assert_eq!(batch, samples_to_le_bytes(&all));
    assert_eq!(b.push(&third), None);
    assert_eq!(b.finish(), Some(vec![0xff, 0xff, 0xfe, 0xff, 0xfd, 0xff]));
    assert_eq!(AudioBatcher::new().finish(), None);
}

#[test]
fn le_bytes_of_samples() {
    assert_eq!(samples_to_le_bytes(&[0x0102, -1, i16::MIN]), vec![0x02, 0x01, 0xff, 0xff, 0x00, 0x80]);
}

#[test]
fn wav_header_and_samples() {
    let w = encode_wav(&[1, -1], 16000);
    let expected: Vec<u8> = vec![
        b'R', b'I', b'F', b'F', 40, 0, 0, 0, b'W', b'A', b'V', b'E', b'f', b'm', b't', b' ', 16, 0, 0,
        0, 1, 0, 1, 0, 0x80, 0x3e, 0, 0, 0x00, 0x7d, 0, 0, 2, 0, 16, 0, b'd', b'a', b't', b'a', 4, 0,
        0, 0, 1, 0, 0xff, 0xff,
    ];
    assert_eq!(w, expected);
}

#[test]
fn wav_reads_back() {
    let samples: Vec<i16> = vec![0, 1, -1, 12345, -32768, 32767];
    let w = encode_wav(&samples, 44100);
    assert_eq!(w.len(), 44 + 2 * samples.len());
    let le32 = |i: usize| u32::from_le_bytes([w[i], w[i + 1], w[i + 2], w[i + 3]]);
    assert_eq!(le32(4) as usize, w.len() - 8);
    assert_eq!(le32(40) as usize, w.len() - 44);
    assert_eq!(le32(24), 44100);
    for (k, s) in samples.iter().enumerate() {
        assert_eq!(i16::from_le_bytes([w[44 + 2 * k], w[45 + 2 * k]]), *s);
    }
}
