//! 16-bit little-endian PCM bytes and the WAV (RIFF) container for mono
//! 16-bit audio.
use vstd::prelude::*;

verus! {

/// The low byte of a 16-bit sample, as stored little-endian.
pub open spec fn sample_lo(x: i16) -> u8 {
    ((x as u16) % 256) as u8
}

/// The high byte of a 16-bit sample, as stored little-endian.
pub open spec fn sample_hi(x: i16) -> u8 {
    ((x as u16) / 256) as u8
}

/// The little-endian bytes of a sequence of 16-bit samples, two per sample.
pub open spec fn samples_le(s: Seq<i16>) -> Seq<u8> {
    Seq::new(
        2 * s.len(),
        |j: int|
            if j % 2 == 0 {
                sample_lo(s[j / 2])
            } else {
                sample_hi(s[j / 2])
            },
    )
}

/// The sample that two little-endian bytes hold.
pub open spec fn decode_sample(lo: u8, hi: u8) -> i16 {
    ((hi as u16) * 256 + (lo as u16)) as i16
}

/// The little-endian bytes of a 16-bit number.
pub open spec fn le_u16(x: u16) -> Seq<u8> {
    seq![(x % 256) as u8, (x / 256) as u8]
}

/// The little-endian bytes of a 32-bit number.
pub open spec fn le_u32(x: u32) -> Seq<u8> {
    seq![(x % 256) as u8, ((x / 256) % 256) as u8, ((x / 65536) % 256) as u8, (x / 16777216) as u8]
}

/// The 32-bit number stored little-endian at `i`.
pub open spec fn read_le_u32(b: Seq<u8>, i: int) -> int {
    b[i] + 256 * b[i + 1] + 65536 * b[i + 2] + 16777216 * b[i + 3]
}

/// The chunk tags of the container, as bytes.
pub open spec fn tag_riff() -> Seq<u8> {
    seq![0x52u8, 0x49, 0x46, 0x46]
}

pub open spec fn tag_wave() -> Seq<u8> {
    seq![0x57u8, 0x41, 0x56, 0x45]
}

pub open spec fn tag_fmt() -> Seq<u8> {
    seq![0x66u8, 0x6d, 0x74, 0x20]
}

pub open spec fn tag_data() -> Seq<u8> {
    seq![0x64u8, 0x61, 0x74, 0x61]
}

/// The 44-byte header of a mono 16-bit PCM WAV file with `data_size` bytes
/// of samples.
#[verifier::opaque]
pub open spec fn wav_header(data_size: u32, sample_rate: u32) -> Seq<u8> {
    tag_riff() + le_u32((36 + data_size) as u32) + tag_wave() + tag_fmt() + le_u32(16) + le_u16(1)
        + le_u16(1) + le_u32(sample_rate) + le_u32((sample_rate * 2) as u32) + le_u16(2) + le_u16(16)
        + tag_data() + le_u32(data_size)
}

proof fn lemma_wav_header_len(data_size: u32, sample_rate: u32)
    ensures
        wav_header(data_size, sample_rate).len() == 44,
{
    reveal(wav_header);
}

/// A mono 16-bit PCM WAV file holding `samples` at `sample_rate`.
pub open spec fn wav_file(samples: Seq<i16>, sample_rate: u32) -> Seq<u8> {
    wav_header((2 * samples.len()) as u32, sample_rate) + samples_le(samples)
}

/// Whether a WAV file of these samples has sizes that fit its 32-bit fields.
pub open spec fn wav_fits(n_samples: nat, sample_rate: u32) -> bool {
    36 + 2 * n_samples <= u32::MAX && 2 * sample_rate <= u32::MAX
}

fn push_u16(buf: &mut Vec<u8>, x: u16)
    ensures
        final(buf)@ == old(buf)@ + le_u16(x),
{
    buf.push((x % 256) as u8);
    buf.push((x / 256) as u8);
    assert(final(buf)@ =~= old(buf)@ + le_u16(x));
}

fn push_u32(buf: &mut Vec<u8>, x: u32)
    ensures
        final(buf)@ == old(buf)@ + le_u32(x),
{
    buf.push((x % 256) as u8);
    buf.push(((x / 256) % 256) as u8);
    buf.push(((x / 65536) % 256) as u8);
    buf.push((x / 16777216) as u8);
    assert(final(buf)@ =~= old(buf)@ + le_u32(x));
}

fn push_tag(buf: &mut Vec<u8>, a: u8, b: u8, c: u8, d: u8)
    ensures
        final(buf)@ == old(buf)@ + seq![a, b, c, d],
{
    buf.push(a);
    buf.push(b);
    buf.push(c);
    buf.push(d);
    assert(final(buf)@ =~= old(buf)@ + seq![a, b, c, d]);
}

/// Appends the little-endian bytes of `samples` to `buf`.
pub fn push_samples_le(buf: &mut Vec<u8>, samples: &[i16])
    ensures
        final(buf)@ == old(buf)@ + samples_le(samples@),
{
    let ghost start = buf@;
    for i in 0..samples.len()
        invariant
            start == old(buf)@,
            buf@ == start + samples_le(samples@.take(i as int)),
    {
        let x = samples[i];
        let u = x as u16;
        buf.push((u % 256) as u8);
        buf.push((u / 256) as u8);
        assert(samples_le(samples@.take(i + 1)) =~= samples_le(samples@.take(i as int)) + seq![
            sample_lo(x),
            sample_hi(x),
        ]);
        assert(buf@ =~= start + samples_le(samples@.take(i + 1)));
    }
    assert(samples@.take(samples@.len() as int) =~= samples@);
}

/// The little-endian bytes of `samples`, two per sample.
pub fn samples_to_le_bytes(samples: &[i16]) -> (res: Vec<u8>)
    ensures
        res@ == samples_le(samples@),
{
    let mut buf: Vec<u8> = Vec::new();
    push_samples_le(&mut buf, samples);
    assert(buf@ =~= samples_le(samples@));
    buf
}

fn wav_header_bytes(data_size: u32, sample_rate: u32) -> (res: Vec<u8>)
    requires
        36 + data_size <= u32::MAX,
        2 * sample_rate <= u32::MAX,
    ensures
        res@ == wav_header(data_size, sample_rate),
{
    let mut buf: Vec<u8> = Vec::new();
    push_tag(&mut buf, 0x52, 0x49, 0x46, 0x46);
    push_u32(&mut buf, 36 + data_size);
    push_tag(&mut buf, 0x57, 0x41, 0x56, 0x45);
    push_tag(&mut buf, 0x66, 0x6d, 0x74, 0x20);
    push_u32(&mut buf, 16);
    push_u16(&mut buf, 1);
    push_u16(&mut buf, 1);
    push_u32(&mut buf, sample_rate);
    push_u32(&mut buf, sample_rate * 2);
    push_u16(&mut buf, 2);
    push_u16(&mut buf, 16);
    push_tag(&mut buf, 0x64, 0x61, 0x74, 0x61);
    push_u32(&mut buf, data_size);
    assert(buf@ =~= wav_header(data_size, sample_rate)) by {
        reveal(wav_header);
    }
    buf
}

/// Encodes `samples` as a mono 16-bit PCM WAV file at `sample_rate`.
pub fn encode_wav(samples: &[i16], sample_rate: u32) -> (res: Vec<u8>)
    requires
        wav_fits(samples@.len(), sample_rate),
    ensures
        res@ == wav_file(samples@, sample_rate),
{
    let data_size: u32 = (samples.len() * 2) as u32;
    let mut buf = wav_header_bytes(data_size, sample_rate);
    push_samples_le(&mut buf, samples);
    buf
}

/// Whether `bytes` is the mono 16-bit PCM WAV file of `samples` at
/// `sample_rate`, as [`encode_wav`] writes it.
pub open spec fn is_wav_of(bytes: Seq<u8>, samples: Seq<i16>, sample_rate: u32) -> bool {
    wav_fits(samples.len(), sample_rate) && bytes == wav_file(samples, sample_rate)
}

/// The samples that the bytes after a 44-byte header hold, two bytes each.
pub open spec fn decoded_samples(bytes: Seq<u8>) -> Seq<i16> {
    Seq::new(
        ((bytes.len() - 44) / 2) as nat,
        |k: int| decode_sample(bytes[44 + 2 * k], bytes[44 + 2 * k + 1]),
    )
}

proof fn lemma_decode_bytes_roundtrip(lo: u8, hi: u8)
    ensures
        sample_lo(decode_sample(lo, hi)) == lo,
        sample_hi(decode_sample(lo, hi)) == hi,
{
    assert(((((((hi as u16) * 256 + (lo as u16)) as i16) as u16) % 256) as u8) == lo) by (bit_vector);
    assert(((((((hi as u16) * 256 + (lo as u16)) as i16) as u16) / 256) as u8) == hi) by (bit_vector);
}

proof fn lemma_decoded_samples_encode(bytes: Seq<u8>)
    requires
        bytes.len() >= 44,
        (bytes.len() - 44) % 2 == 0,
    ensures
        samples_le(decoded_samples(bytes)) == bytes.skip(44),
{
    let s = decoded_samples(bytes);
    let l = samples_le(s);
    let r = bytes.skip(44);
    assert forall|j: int| 0 <= j < l.len() implies l[j] == r[j] by {
        let k = j / 2;
        lemma_decode_bytes_roundtrip(bytes[44 + 2 * k], bytes[44 + 2 * k + 1]);
        if j % 2 == 0 {
            assert(44 + 2 * k == 44 + j);
        } else {
            assert(44 + 2 * k + 1 == 44 + j);
        }
    }
    assert(l =~= r);
}

fn starts_with(bytes: &[u8], prefix: &[u8]) -> (res: bool)
    requires
        prefix@.len() <= bytes@.len(),
    ensures
        res == (bytes@.take(prefix@.len() as int) == prefix@),
{
    let mut i: usize = 0;
    while i < prefix.len()
        invariant
            i <= prefix@.len() <= bytes@.len(),
            forall|j: int| 0 <= j < i ==> bytes@[j] == #[trigger] prefix@[j],
        decreases prefix.len() - i,
    {
        if bytes[i] != prefix[i] {
            assert(bytes@.take(prefix@.len() as int)[i as int] != prefix@[i as int]);
            return false;
        }
        i = i + 1;
    }
    assert(bytes@.take(prefix@.len() as int) =~= prefix@);
    true
}

/// How many samples `bytes` holds, if it is the mono 16-bit PCM WAV file of
/// some samples at `sample_rate`; `None` if it is no such file.
pub fn wav_sample_count(bytes: &[u8], sample_rate: u32) -> (res: Option<usize>)
    ensures
        match res {
            Some(n) => {
                &&& exists|s: Seq<i16>| s.len() == n && is_wav_of(bytes@, s, sample_rate)
                &&& forall|s: Seq<i16>| is_wav_of(bytes@, s, sample_rate) ==> s.len() == n
            },
            None => forall|s: Seq<i16>| !is_wav_of(bytes@, s, sample_rate),
        },
{
    let len = bytes.len();
    if len < 44 || (len - 44) % 2 != 0 || len - 8 > 0xffff_ffffusize || sample_rate > 0x7fff_ffff {
        proof {
            assert forall|s: Seq<i16>| !is_wav_of(bytes@, s, sample_rate) by {
                if is_wav_of(bytes@, s, sample_rate) {
                    lemma_wav_header_len((2 * s.len()) as u32, sample_rate);
                }
            }
        }
        return None;
    }
    let data_size: u32 = (len - 44) as u32;
    let header = wav_header_bytes(data_size, sample_rate);
    proof {
        lemma_wav_header_len(data_size, sample_rate);
    }
    if !starts_with(bytes, header.as_slice()) {
        proof {
            assert forall|s: Seq<i16>| !is_wav_of(bytes@, s, sample_rate) by {
                if is_wav_of(bytes@, s, sample_rate) {
                    lemma_wav_header_len((2 * s.len()) as u32, sample_rate);
                    assert(bytes@.take(44) =~= header@);
                }
            }
        }
        return None;
    }
    let n = (len - 44) / 2;
    proof {
        let s = decoded_samples(bytes@);
        lemma_decoded_samples_encode(bytes@);
        assert(s.len() == n);
        lemma_wav_header_len(data_size, sample_rate);
        assert(bytes@.take(44) =~= wav_header(data_size, sample_rate));
        assert(bytes@ =~= bytes@.take(44) + bytes@.skip(44));
        assert(is_wav_of(bytes@, s, sample_rate));
        assert forall|t: Seq<i16>| is_wav_of(bytes@, t, sample_rate) implies t.len() == n by {
            lemma_wav_header_len((2 * t.len()) as u32, sample_rate);
        }
    }
    Some(n)
}

/// The bytes of samples placed one after the other are the bytes of each,
/// one after the other.
pub proof fn lemma_samples_le_concat(a: Seq<i16>, b: Seq<i16>)
    ensures
        samples_le(a + b) == samples_le(a) + samples_le(b),
{
    let l = samples_le(a + b);
    let r = samples_le(a) + samples_le(b);
    assert forall|j: int| 0 <= j < l.len() implies l[j] == r[j] by {
        if j >= 2 * a.len() {
            assert((j - 2 * a.len()) / 2 == j / 2 - a.len());
            assert((j - 2 * a.len()) % 2 == j % 2);
        }
    }
    assert(l =~= r);
}

proof fn lemma_sample_bytes_roundtrip(x: i16)
    ensures
        decode_sample(sample_lo(x), sample_hi(x)) == x,
{
    assert(((((((x as u16) / 256) as u8) as u16) * 256 + ((((x as u16) % 256) as u8) as u16)) as i16)
        == x) by (bit_vector);
}

proof fn lemma_le_u32_read(b: Seq<u8>, i: int, x: u32)
    requires
        0 <= i,
        i + 4 <= b.len(),
        b.subrange(i, i + 4) == le_u32(x),
    ensures
        read_le_u32(b, i) == x,
{
    assert(b[i] == b.subrange(i, i + 4)[0]);
    assert(b[i + 1] == b.subrange(i, i + 4)[1]);
    assert(b[i + 2] == b.subrange(i, i + 4)[2]);
    assert(b[i + 3] == b.subrange(i, i + 4)[3]);
    assert((x % 256) + 256 * ((x / 256) % 256) + 65536 * ((x / 65536) % 256) + 16777216 * (x
        / 16777216) == x) by (nonlinear_arith);
}

/// Reading a WAV file back: it is 44 header bytes and two bytes per sample;
/// its RIFF size field holds the file length less 8, its data size field
/// the length less 44, its rate field the sample rate, and the two bytes at
/// `44 + 2k` decode to sample `k`.
pub proof fn lemma_wav_reads_back(samples: Seq<i16>, sample_rate: u32)
    requires
        wav_fits(samples.len(), sample_rate),
    ensures
        wav_file(samples, sample_rate).len() == 44 + 2 * samples.len(),
        read_le_u32(wav_file(samples, sample_rate), 4) == wav_file(samples, sample_rate).len() - 8,
        read_le_u32(wav_file(samples, sample_rate), 40) == wav_file(samples, sample_rate).len() - 44,
        read_le_u32(wav_file(samples, sample_rate), 24) == sample_rate,
        forall|k: int|
            0 <= k < samples.len() ==> decode_sample(
                #[trigger] wav_file(samples, sample_rate)[44 + 2 * k],
                wav_file(samples, sample_rate)[44 + 2 * k + 1],
            ) == samples[k],
{
    let w = wav_file(samples, sample_rate);
    let data_size = (2 * samples.len()) as u32;
    let h = wav_header(data_size, sample_rate);
    reveal(wav_header);
    assert(h.len() == 44);
    assert(w.subrange(4, 8) =~= le_u32((36 + data_size) as u32));
    lemma_le_u32_read(w, 4, (36 + data_size) as u32);
    assert(w.subrange(40, 44) =~= le_u32(data_size));
    lemma_le_u32_read(w, 40, data_size);
    assert(w.subrange(24, 28) =~= le_u32(sample_rate));
    lemma_le_u32_read(w, 24, sample_rate);
    assert forall|k: int| 0 <= k < samples.len() implies decode_sample(
        #[trigger] w[44 + 2 * k],
        w[44 + 2 * k + 1],
    ) == samples[k] by {
        assert(w[44 + 2 * k] == samples_le(samples)[2 * k]);
        assert(w[44 + 2 * k + 1] == samples_le(samples)[2 * k + 1]);
        assert((2 * k) / 2 == k);
        assert((2 * k + 1) / 2 == k);
        assert((2 * k + 1) % 2 == 1);
        lemma_sample_bytes_roundtrip(samples[k]);
    }
}

} // verus!
