use voclip::beep::{play_error_beep, play_start_beep, play_stop_beep, tone_sample_count, Tone, FADE_SAMPLES};
use voclip::lock::{parse_pid, proc_path};
use voclip::update::{release_bin_name, release_target};

fn pairs(t: &[Tone]) -> Vec<(u32, u32)> {
    t.iter().map(|t| (t.freq_hz, t.duration_ms)).collect()
}

#[test]
fn beep_tones() {
    assert_eq!(pairs(&play_start_beep()), vec![(400, 150), (800, 150)]);
    assert_eq!(pairs(&play_stop_beep()), vec![(800, 150), (400, 150)]);
    assert_eq!(pairs(&play_error_beep()), vec![(400, 200), (200, 200), (350, 200), (175, 200)]);
}

#[test]
fn tone_lengths_leave_room_for_fades() {
    assert_eq!(tone_sample_count(150), 6615);
    assert_eq!(tone_sample_count(200), 8820);
    assert_eq!(tone_sample_count(0), 0);
    for t in play_error_beep().iter().chain(play_start_beep().iter()) {
        assert!(tone_sample_count(t.duration_ms) >= 2 * FADE_SAMPLES);
    }
}

#[test]
fn release_targets() {
    assert_eq!(release_target("linux", "x86_64"), Some("linux-x86_64"));
    assert_eq!(release_target("macos", "aarch64"), Some("macos-aarch64"));
    assert_eq!(release_target("macos", "x86_64"), Some("macos-x86_64"));
    assert_eq!(release_target("windows", "x86_64"), Some("windows-x86_64"));
    assert_eq!(release_target("freebsd", "x86_64"), None);
    assert_eq!(release_bin_name(".exe"), "voclip.exe");
    assert_eq!(release_bin_name(""), "voclip");
}

#[test]
fn pid_lock_contents() {
    assert_eq!(parse_pid("1234\n"), Some(1234));
    assert_eq!(parse_pid("  42  "), Some(42));
    assert_eq!(parse_pid("abc"), None);
    assert_eq!(parse_pid(""), None);
    assert_eq!(parse_pid("99999999999"), None);
    assert_eq!(proc_path(1234), "/proc/1234");
    assert_eq!(proc_path(0), "/proc/0");
}
