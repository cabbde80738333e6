//! The audible signals: which tones each beep plays, and how long each tone
//! lasts in samples.
use vstd::prelude::*;

verus! {

/// The sample rate of the beeps.
pub const BEEP_SAMPLE_RATE: u32 = 44100;

/// The samples over which each tone fades in and out (5 ms at 44.1 kHz).
pub const FADE_SAMPLES: usize = 220;

/// One tone of a beep: a frequency and a duration.
#[derive(Debug, Clone, Copy, PartialEq, Eq, Structural)]
pub struct Tone {
    pub freq_hz: u32,
    pub duration_ms: u32,
}

/// The tones of a beep as (frequency in Hz, duration in ms) pairs.
pub open spec fn tones_view(v: Seq<Tone>) -> Seq<(u32, u32)> {
    v.map_values(|t: Tone| (t.freq_hz, t.duration_ms))
}

fn tones2(a: Tone, b: Tone) -> (res: Vec<Tone>)
    ensures
        res@ == seq![a, b],
{
    let mut v: Vec<Tone> = Vec::new();
    v.push(a);
    v.push(b);
    assert(v@ =~= seq![a, b]);
    v
}

/// The start beep: a rising two-tone chirp, 400 Hz then 800 Hz, 150 ms each,
/// played when recording starts.
pub fn play_start_beep() -> (res: Vec<Tone>)
    ensures
        tones_view(res@) == seq![(400u32, 150u32), (800u32, 150u32)],
{
    let v = tones2(Tone { freq_hz: 400, duration_ms: 150 }, Tone { freq_hz: 800, duration_ms: 150 });
    assert(tones_view(v@) =~= seq![(400u32, 150u32), (800u32, 150u32)]);
    v
}

/// The stop beep: a falling two-tone chirp, 800 Hz then 400 Hz, 150 ms each,
/// played when recording is done.
pub fn play_stop_beep() -> (res: Vec<Tone>)
    ensures
        tones_view(res@) == seq![(800u32, 150u32), (400u32, 150u32)],
{
    let v = tones2(Tone { freq_hz: 800, duration_ms: 150 }, Tone { freq_hz: 400, duration_ms: 150 });
    assert(tones_view(v@) =~= seq![(800u32, 150u32), (400u32, 150u32)]);
    v
}

/// The error beep: a descending "womp womp", 400, 200, 350 and 175 Hz,
/// 200 ms each.
pub fn play_error_beep() -> (res: Vec<Tone>)
    ensures
        tones_view(res@) == seq![(400u32, 200u32), (200u32, 200u32), (350u32, 200u32), (175u32, 200u32)],
{
    let mut v = tones2(Tone { freq_hz: 400, duration_ms: 200 }, Tone { freq_hz: 200, duration_ms: 200 });
    v.push(Tone { freq_hz: 350, duration_ms: 200 });
    v.push(Tone { freq_hz: 175, duration_ms: 200 });
    assert(tones_view(v@) =~= seq![(400u32, 200u32), (200u32, 200u32), (350u32, 200u32), (175u32, 200u32)]);
    v
}

/// The number of samples of a tone lasting `duration_ms`.
pub open spec fn tone_samples(duration_ms: u32) -> nat {
    (BEEP_SAMPLE_RATE * duration_ms / 1000) as nat
}

/// The number of samples of a tone; durations up to 97 s fit the
/// arithmetic.
pub fn tone_sample_count(duration_ms: u32) -> (res: usize)
    requires
        BEEP_SAMPLE_RATE * duration_ms <= u32::MAX,
    ensures
        res == tone_samples(duration_ms),
{
    (BEEP_SAMPLE_RATE * duration_ms / 1000) as usize
}

/// Every tone of the three beeps is long enough to fade in and out.
pub proof fn lemma_beep_tones_fit_fades(d: u32)
    requires
        d == 150 || d == 200,
    ensures
        tone_samples(d) >= 2 * FADE_SAMPLES,
{
}

} // verus!
