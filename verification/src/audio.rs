//! Audio sample handling between the capture device and its consumers:
//! down-mixing interleaved channels, choosing a device by name, cutting the
//! stream into detector frames and into batches for the network.
use vstd::prelude::*;
use crate::error::VoclipError;
use crate::text::{contains_seq, contains_str, join3, lowercased, to_lowercase};
use crate::wav::{lemma_samples_le_concat, samples_le, samples_to_le_bytes};

verus! {

// ---------------------------------------------------------------------------
// Down-mixing
// ---------------------------------------------------------------------------

/// The sum of a run of samples.
pub open spec fn sum_samples(s: Seq<i16>) -> int
    decreases s.len(),
{
    if s.len() == 0 {
        0
    } else {
        sum_samples(s.drop_last()) + s.last()
    }
}

/// Integer division rounding toward zero, as Rust's `/` on integers does.
pub open spec fn trunc_div(a: int, b: int) -> int {
    if a >= 0 {
        a / b
    } else {
        -((-a) / b)
    }
}

/// The number of frames that `n` interleaved samples of `ch` channels make;
/// a shorter last frame counts.
pub open spec fn frame_count(n: nat, ch: nat) -> nat {
    ((n + ch - 1) as nat / ch) as nat
}

/// The down-mixed value of frame `f`: the sum of its samples divided by the
/// channel count, rounded toward zero (a shorter last frame is divided by
/// the channel count too).
pub open spec fn mono_frame(data: Seq<i16>, ch: nat, f: int) -> i16 {
    let start = f * ch;
    let end = if start + ch <= data.len() {
        start + ch
    } else {
        data.len() as int
    };
    trunc_div(sum_samples(data.subrange(start, end)), ch as int) as i16
}

/// Interleaved samples of `ch` channels down-mixed to one channel.
pub open spec fn to_mono(data: Seq<i16>, ch: nat) -> Seq<i16> {
    Seq::new(frame_count(data.len(), ch), |f: int| mono_frame(data, ch, f))
}

proof fn lemma_sum_bounds(s: Seq<i16>)
    ensures
        -32768 * s.len() <= sum_samples(s) <= 32767 * s.len(),
    decreases s.len(),
{
    if s.len() > 0 {
        lemma_sum_bounds(s.drop_last());
    }
}

proof fn lemma_sum_push(s: Seq<i16>, a: int, b: int)
    requires
        0 <= a <= b < s.len(),
    ensures
        sum_samples(s.subrange(a, b + 1)) == sum_samples(s.subrange(a, b)) + s[b],
{
    assert(s.subrange(a, b + 1).drop_last() =~= s.subrange(a, b));
}

proof fn lemma_mean_fits(sum: int, k: int, ch: int)
    requires
        0 < k <= ch,
        -32768 * k <= sum <= 32767 * k,
    ensures
        -32768 <= trunc_div(sum, ch) <= 32767,
{
    if sum >= 0 {
        assert(sum <= 32767 * ch) by (nonlinear_arith)
            requires
                sum <= 32767 * k,
                k <= ch,
        ;
        assert(sum / ch <= 32767) by (nonlinear_arith)
            requires
                0 <= sum <= 32767 * ch,
                ch > 0,
        ;
    } else {
        assert(-sum <= 32768 * ch) by (nonlinear_arith)
            requires
                -sum <= 32768 * k,
                k <= ch,
        ;
        assert((-sum) / ch <= 32768) by (nonlinear_arith)
            requires
                0 <= -sum <= 32768 * ch,
                ch > 0,
        ;
    }
}

/// Down-mixes interleaved samples of `channels` channels to one channel:
/// each frame becomes the sum of its samples divided by the channel count,
/// rounded toward zero. One channel is returned as it is.
pub fn to_mono_i16(data: &[i16], channels: u16) -> (res: Vec<i16>)
    requires
        channels > 0,
    ensures
        res@ == to_mono(data@, channels as nat),
        channels == 1 ==> res@ == data@,
{
    let ch = channels as usize;
    let n = data.len();
    let mut out: Vec<i16> = Vec::new();
    let mut start: usize = 0;
    let mut f: usize = 0;
    proof {
        if n > 0 {
            assert(0 < frame_count(n as nat, ch as nat)) by (nonlinear_arith)
                requires
                    n > 0,
                    ch > 0,
                    frame_count(n as nat, ch as nat) == ((n + ch - 1) as nat / ch as nat),
            ;
        } else {
            assert(frame_count(0, ch as nat) == 0) by (nonlinear_arith)
                requires
                    ch > 0,
                    frame_count(0, ch as nat) == ((0 + ch - 1) as nat / ch as nat),
            ;
        }
    }
    while start < n
        invariant
            ch == channels as nat,
            ch > 0,
            n == data@.len(),
            start == (if f * ch <= n { f * ch } else { n as int }),
            start <= n,
            f <= frame_count(n as nat, ch as nat),
            start < n ==> f < frame_count(n as nat, ch as nat),
            start >= n ==> f == frame_count(n as nat, ch as nat),
            out@ =~= Seq::new(f as nat, |g: int| mono_frame(data@, ch as nat, g)),
        decreases n - start,
    {
        let end = if ch <= n - start {
            start + ch
        } else {
            n
        };
        let mut sum: i64 = 0;
        let mut j: usize = start;
        while j < end
            invariant
                start <= j <= end,
                end <= n,
                n == data@.len(),
                end - start <= ch,
                ch <= 65535,
                sum == sum_samples(data@.subrange(start as int, j as int)),
            decreases end - j,
        {
            proof {
                lemma_sum_push(data@, start as int, j as int);
                lemma_sum_bounds(data@.subrange(start as int, j as int));
                assert(j - start <= 65535);
            }
            sum = sum + data[j] as i64;
            j = j + 1;
        }
        proof {
            lemma_sum_bounds(data@.subrange(start as int, end as int));
            lemma_mean_fits(sum as int, (end - start) as int, ch as int);
        }
        let mean: i64 = if sum >= 0 {
            sum / (ch as i64)
        } else {
            -((-sum) / (ch as i64))
        };
        assert(mean == trunc_div(sum as int, ch as int));
        out.push(mean as i16);
        proof {
            assert((f + 1) * ch == f * ch + ch) by (nonlinear_arith);
            assert(mono_frame(data@, ch as nat, f as int) == mean as i16);
            assert(frame_count(n as nat, ch as nat) == ((n + ch - 1) as nat / ch as nat));
            if start + ch < n {
                assert((f + 1) * ch < n);
                assert(f + 1 < frame_count(n as nat, ch as nat)) by (nonlinear_arith)
                    requires
                        (f + 1) * ch < n,
                        ch > 0,
                        frame_count(n as nat, ch as nat) == ((n + ch - 1) as nat / ch as nat),
                ;
            } else {
                assert(f + 1 == frame_count(n as nat, ch as nat)) by (nonlinear_arith)
                    requires
                        f * ch < n,
                        n <= (f + 1) * ch,
                        ch > 0,
                        frame_count(n as nat, ch as nat) == ((n + ch - 1) as nat / ch as nat),
                ;
            }
        }
        assert(f <= f * ch) by (nonlinear_arith)
            requires
                ch > 0,
        ;
        start = end;
        f = f + 1;
        assert(out@ =~= Seq::new(f as nat, |g: int| mono_frame(data@, ch as nat, g)));
    }
    proof {
        if channels == 1 {
            assert forall|g: int| 0 <= g < data@.len() implies mono_frame(data@, 1, g) == data@[g] by {
                let one = data@.subrange(g, g + 1);
                assert(one.drop_last() =~= Seq::<i16>::empty());
                assert(sum_samples(one.drop_last()) == 0);
                assert(one.last() == data@[g]);
                assert(sum_samples(one) == data@[g]);
            }
            assert(frame_count(n as nat, 1) == n) by (nonlinear_arith)
                requires
                    frame_count(n as nat, 1) == ((n + 1 - 1) as nat / 1nat),
            ;
            assert(out@ =~= data@);
        }
    }
    out
}

// ---------------------------------------------------------------------------
// Sample-rate conversion
// ---------------------------------------------------------------------------

/// Whether audio captured at `from_rate` must be converted to reach
/// `to_rate`.
pub fn needs_resample(from_rate: u32, to_rate: u32) -> (res: bool)
    ensures
        res == (from_rate != to_rate),
{
    from_rate != to_rate
}

/// The samples as they are, when the two rates agree and nothing needs
/// converting; `None` when they differ.
pub fn same_rate_samples(from_rate: u32, to_rate: u32, input: &[i16]) -> (res: Option<Vec<i16>>)
    ensures
        match res {
            Some(out) => from_rate == to_rate && out@ == input@,
            None => from_rate != to_rate,
        },
{
    if needs_resample(from_rate, to_rate) {
        return None;
    }
    let mut out: Vec<i16> = Vec::new();
    for i in 0..input.len()
        invariant
            out@ == input@.take(i as int),
    {
        out.push(input[i]);
        assert(input@.take(i + 1) =~= input@.take(i as int).push(input@[i as int]));
    }
    assert(input@.take(input@.len() as int) =~= input@);
    Some(out)
}

// ---------------------------------------------------------------------------
// Choosing an input device
// ---------------------------------------------------------------------------

/// Whether a device name matches a query: the lowercased query occurs in the
/// lowercased device name.
pub open spec fn device_matches(device: Seq<char>, query: Seq<char>) -> bool {
    contains_seq(lowercased(device), lowercased(query))
}

/// The message of the error for a query that no device matches.
pub open spec fn no_device_message(query: Seq<char>) -> Seq<char> {
    "No input device matching \""@ + query
        + "\". Use --list-devices to see available devices."@
}

/// The first device, in the order given, whose name matches `name`
/// case-insensitively as a substring; an error naming the query if none
/// does.
pub fn find_device_by_name(devices: &Vec<String>, name: &str) -> (res: Result<usize, VoclipError>)
    ensures
        match res {
            Ok(i) => {
                &&& i < devices@.len()
                &&& device_matches(devices@[i as int]@, name@)
                &&& forall|j: int| 0 <= j < i ==> !device_matches(#[trigger] devices@[j]@, name@)
            },
            Err(e) => {
                &&& forall|j: int|
                    0 <= j < devices@.len() ==> !device_matches(#[trigger] devices@[j]@, name@)
                &&& e matches VoclipError::AudioDevice(m) && m@ == no_device_message(name@)
            },
        },
{
    let lower = to_lowercase(name);
    let mut i: usize = 0;
    while i < devices.len()
        invariant
            i <= devices@.len(),
            lower@ == lowercased(name@),
            forall|j: int| 0 <= j < i ==> !device_matches(#[trigger] devices@[j]@, name@),
        decreases devices.len() - i,
    {
        let dev_lower = to_lowercase(devices[i].as_str());
        if contains_str(dev_lower.as_str(), lower.as_str()) {
            return Ok(i);
        }
        i = i + 1;
    }
    Err(
        VoclipError::AudioDevice(
            join3(
                "No input device matching \"",
                name,
                "\". Use --list-devices to see available devices.",
            ),
        ),
    )
}

// ---------------------------------------------------------------------------
// Detector frames
// ---------------------------------------------------------------------------

/// A queue of samples that is filled in chunks of any size and emptied in
/// frames of a fixed size, oldest samples first.
pub struct FrameBuffer {
    samples: Vec<i16>,
}

impl View for FrameBuffer {
    type V = Seq<i16>;

    closed spec fn view(&self) -> Seq<i16> {
        self.samples@
    }
}

impl FrameBuffer {
    /// An empty buffer.
    pub fn new() -> (res: FrameBuffer)
        ensures
            res@ == Seq::<i16>::empty(),
    {
        FrameBuffer { samples: Vec::new() }
    }

    /// The number of buffered samples.
    pub fn len(&self) -> (res: usize)
        ensures
            res == self@.len(),
    {
        self.samples.len()
    }

    /// Appends samples at the end.
    pub fn push(&mut self, samples: &[i16])
        ensures
            final(self)@ == old(self)@ + samples@,
    {
        let ghost before = self.samples@;
        for i in 0..samples.len()
            invariant
                self.samples@ == before + samples@.take(i as int),
        {
            self.samples.push(samples[i]);
            assert(self.samples@ =~= before + samples@.take(i + 1));
        }
        assert(samples@.take(samples@.len() as int) =~= samples@);
    }

    /// Takes the oldest `size` samples out, if that many are buffered.
    pub fn pop_frame(&mut self, size: usize) -> (res: Option<Vec<i16>>)
        ensures
            match res {
                Some(frame) => {
                    &&& old(self)@.len() >= size
                    &&& frame@ == old(self)@.take(size as int)
                    &&& final(self)@ == old(self)@.skip(size as int)
                    &&& old(self)@ == frame@ + final(self)@
                },
                None => {
                    &&& old(self)@.len() < size
                    &&& final(self)@ == old(self)@
                },
            },
    {
        let n = self.samples.len();
        if n < size {
            return None;
        }
        let mut frame: Vec<i16> = Vec::new();
        let mut rest: Vec<i16> = Vec::new();
        for i in 0..n
            invariant
                n == self.samples@.len(),
                size <= n,
                frame@ == self.samples@.take(if i < size { i as int } else { size as int }),
                rest@ == self.samples@.subrange(size as int, if i < size { size as int } else { i as int }),
        {
            if i < size {
                frame.push(self.samples[i]);
            } else {
                rest.push(self.samples[i]);
            }
            assert(frame@ =~= self.samples@.take(if i + 1 < size { i + 1 } else { size as int }));
            assert(rest@ =~= self.samples@.subrange(size as int, if i + 1 < size { size as int } else { i + 1 }));
        }
        assert(rest@ =~= self.samples@.skip(size as int));
        assert(self.samples@ =~= frame@ + rest@);
        self.samples = rest;
        Some(frame)
    }

    /// Drops every buffered sample.
    pub fn clear(&mut self)
        ensures
            final(self)@ == Seq::<i16>::empty(),
    {
        self.samples = Vec::new();
    }
}

// ---------------------------------------------------------------------------
// Network batches
// ---------------------------------------------------------------------------

/// The fewest samples sent in one message (100 ms at 16 kHz), as the
/// service asks.
pub const MIN_BATCH_SAMPLES: usize = 1600;

/// Collects audio until a batch is large enough to send, then hands it out
/// as little-endian bytes.
pub struct AudioBatcher {
    pending: Vec<i16>,
}

impl View for AudioBatcher {
    type V = Seq<i16>;

    closed spec fn view(&self) -> Seq<i16> {
        self.pending@
    }
}

impl AudioBatcher {
    /// A batcher with nothing pending.
    pub fn new() -> (res: AudioBatcher)
        ensures
            res@ == Seq::<i16>::empty(),
    {
        AudioBatcher { pending: Vec::new() }
    }

    /// Adds samples; once at least [`MIN_BATCH_SAMPLES`] are pending, all of
    /// them leave as one batch of bytes.
    pub fn push(&mut self, samples: &[i16]) -> (res: Option<Vec<u8>>)
        ensures
            match res {
                Some(bytes) => {
                    &&& (old(self)@ + samples@).len() >= MIN_BATCH_SAMPLES
                    &&& bytes@ == samples_le(old(self)@ + samples@)
                    &&& final(self)@ == Seq::<i16>::empty()
                },
                None => {
                    &&& (old(self)@ + samples@).len() < MIN_BATCH_SAMPLES
                    &&& final(self)@ == old(self)@ + samples@
                },
            },
    {
        let ghost before = self.pending@;
        for i in 0..samples.len()
            invariant
                self.pending@ == before + samples@.take(i as int),
        {
            self.pending.push(samples[i]);
            assert(self.pending@ =~= before + samples@.take(i + 1));
        }
        assert(samples@.take(samples@.len() as int) =~= samples@);
        if self.pending.len() >= MIN_BATCH_SAMPLES {
            let bytes = samples_to_le_bytes(self.pending.as_slice());
            self.pending = Vec::new();
            Some(bytes)
        } else {
            None
        }
    }

    /// What is still pending when the audio ends, as bytes; nothing if no
    /// sample is pending.
    pub fn finish(self) -> (res: Option<Vec<u8>>)
        ensures
            match res {
                Some(bytes) => self@.len() > 0 && bytes@ == samples_le(self@),
                None => self@.len() == 0,
            },
    {
        if self.pending.len() == 0 {
            None
        } else {
            Some(samples_to_le_bytes(self.pending.as_slice()))
        }
    }
}

/// Everything fed to a batcher goes out, in order: if the batches sent so
/// far followed by the pending samples are the bytes of everything fed so
/// far, that stays so after the next push.
pub proof fn lemma_batches_carry_all_audio(
    sent: Seq<u8>,
    pending: Seq<i16>,
    fed: Seq<i16>,
    input: Seq<i16>,
    batch: Option<Seq<u8>>,
    pending_after: Seq<i16>,
)
    requires
        sent + samples_le(pending) == samples_le(fed),
        match batch {
            Some(bytes) => bytes == samples_le(pending + input) && pending_after == Seq::<i16>::empty(),
            None => pending_after == pending + input,
        },
    ensures
        (match batch {
            Some(bytes) => sent + bytes,
            None => sent,
        }) + samples_le(pending_after) == samples_le(fed + input),
{
    lemma_samples_le_concat(fed, input);
    lemma_samples_le_concat(pending, input);
    assert(samples_le(Seq::<i16>::empty()) =~= Seq::<u8>::empty());
    match batch {
        Some(bytes) => {
            assert(sent + bytes + samples_le(pending_after) =~= sent + samples_le(pending) + samples_le(input));
        },
        None => {
            assert(sent + samples_le(pending_after) =~= sent + samples_le(pending) + samples_le(input));
        },
    }
}

} // verus!
