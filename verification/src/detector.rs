//! Wake word detection and reference building with the `rustpotter`
//! spotter: the frame loops that feed the detector and pick the pattern of
//! a detection, and the building of a pattern's reference file from the
//! recordings of a training session.
use vstd::prelude::*;
use rustpotter::{Rustpotter, WakewordRef, WakewordRefBuildFromBuffers, WakewordSave};
use crate::audio::FrameBuffer;
use crate::error::VoclipError;
use crate::text::join2;
use crate::wakeword::{
    find_pattern, is_pattern_for, no_pattern_for, sample_file_name, samples_view, TrainingSession,
    VoicePattern, DETECT_SAMPLE_RATE,
};
use crate::wav::{is_wav_of, wav_sample_count};

verus! {

#[verifier::external_type_specification]
#[verifier::external_body]
pub struct ExRustpotter(Rustpotter);

#[verifier::external_type_specification]
#[verifier::external_body]
pub struct ExWakewordRef(WakewordRef);

/// The number of cepstral coefficients per frame of a trained reference.
pub const WAKEWORD_MFCC_SIZE: u16 = 16;

/// A detection: the name the detector reports and its score, with three
/// decimals.
pub struct Detection {
    pub name: String,
    pub score: String,
}

impl View for Detection {
    type V = (Seq<char>, Seq<char>);

    open spec fn view(&self) -> (Seq<char>, Seq<char>) {
        (self.name@, self.score@)
    }
}

/// One frame fed to a detector and its answer: the name and score of a
/// detection, or nothing.
pub type FedFrame = (Seq<i16>, Option<(Seq<char>, Seq<char>)>);

/// The answer recorded for a detector's result.
pub open spec fn answer_of(res: Option<Detection>) -> Option<(Seq<char>, Seq<char>)> {
    match res {
        Some(d) => Some(d@),
        None => None,
    }
}

/// A wake word detector with the record, in order, of every frame it has
/// been fed and what each gave.
pub struct Detector {
    spotter: Rustpotter,
    fed: Ghost<Seq<FedFrame>>,
}

impl Detector {
    /// The frames fed so far, each with the detector's answer.
    pub closed spec fn fed(&self) -> Seq<FedFrame> {
        self.fed@
    }

    /// A detector that has been fed nothing yet.
    pub fn new(spotter: Rustpotter) -> (res: Detector)
        ensures
            res.fed() == Seq::<FedFrame>::empty(),
    {
        Detector { spotter, fed: Ghost(Seq::empty()) }
    }

    /// The spotter inside, to read its settings.
    pub fn spotter(&self) -> &Rustpotter {
        &self.spotter
    }
}

/// Calls `Rustpotter::process_samples` on one frame and keeps the detected
/// name and the score (formatted with three decimals). Claimed: the frame
/// and the answer are appended to the detector's record. Whether a frame
/// gives a detection depends on the spotter's state, so nothing more is
/// claimed of the answer.
#[verifier::external_body]
pub(crate) fn detector_process(detector: &mut Detector, frame: Vec<i16>) -> (res: Option<Detection>)
    ensures
        final(detector).fed() == old(detector).fed().push((frame@, answer_of(res))),
{
    match detector.spotter.process_samples(frame) {
        Some(d) => Some(Detection { name: d.name, score: format!("{:.3}", d.score) }),
        None => None,
    }
}

/// The fewest samples a training recording holds: two of the spotter's
/// 30 ms feature frames at 16 kHz, the least from which it extracts a
/// feature.
pub const MIN_REFERENCE_SAMPLES: usize = 960;

/// Whether `bytes` is a recording a reference can be trained on: a mono
/// 16-bit WAV file at the detection rate with at least
/// [`MIN_REFERENCE_SAMPLES`] samples.
pub open spec fn is_reference_recording(bytes: Seq<u8>) -> bool {
    exists|s: Seq<i16>| s.len() >= MIN_REFERENCE_SAMPLES && is_wav_of(bytes, s, DETECT_SAMPLE_RATE)
}

/// Whether every recording before index `i` can be trained on.
pub open spec fn valid_before(recordings: Seq<(String, Vec<u8>)>, i: int) -> bool {
    forall|j: int| 0 <= j < i ==> is_reference_recording(#[trigger] recordings[j].1@)
}

/// The message with which the spotter refuses to build a reference from no
/// recordings.
pub open spec fn empty_reference_message() -> Seq<char> {
    "Can not create an empty wakeword"@
}

/// The message for a recording that cannot be trained on.
pub open spec fn invalid_recording_message(name: Seq<char>) -> Seq<char> {
    "Recording is not a 16 kHz mono WAV of at least 60 ms: "@ + name
}

/// What a trained reference holds, as the spotter builds it: the pattern's
/// name, the number of cepstral coefficients per frame, and the names of
/// the recordings it keeps the features of (one entry per distinct name).
pub type ReferenceModel = (Seq<char>, u16, Set<Seq<char>>);

/// The names of the recordings.
pub open spec fn recording_names(recordings: Seq<(String, Vec<u8>)>) -> Set<Seq<char>> {
    recordings.map_values(|r: (String, Vec<u8>)| r.0@).to_set()
}

/// A reference built by the spotter, with what it holds.
pub struct Reference {
    spotter_ref: WakewordRef,
    model: Ghost<ReferenceModel>,
}

impl Reference {
    /// What the reference holds.
    pub closed spec fn model(&self) -> ReferenceModel {
        self.model@
    }
}

/// The bytes of a reference file, with what the reference they encode
/// holds.
pub struct ReferenceFile {
    bytes: Vec<u8>,
    model: Ghost<ReferenceModel>,
}

impl ReferenceFile {
    /// What the encoded reference holds.
    pub closed spec fn model(&self) -> ReferenceModel {
        self.model@
    }

    /// The bytes of the file.
    pub fn bytes(&self) -> &Vec<u8> {
        &self.bytes
    }

    /// The bytes of the file, taken out.
    pub fn into_bytes(self) -> Vec<u8> {
        self.bytes
    }
}

/// Calls `WakewordRef::new_from_sample_buffers` (with no score thresholds
/// of its own) on the recordings, given as (file name, WAV bytes) pairs,
/// collected into a hash map by name.
/// The spotter's source takes the first feature row of a recording and
/// unwraps every sample it reads, so it panics on a recording too short to
/// give a feature or on a cut-off WAV file: `requires` leaves those out.
/// Claimed, as that source shows: with no recordings the result is the
/// error "Can not create an empty wakeword"; with some (each a 16 kHz mono
/// 16-bit WAV, whose reading and feature extraction cannot fail) the build
/// succeeds, and the reference carries `name`, feature rows of `mfcc_size`
/// coefficients, and one feature entry for each distinct recording name.
/// The features themselves are floating point and are not described.
#[verifier::external_body]
fn reference_from_recordings(name: String, recordings: Vec<(String, Vec<u8>)>, mfcc_size: u16) -> (res: Result<Reference, String>)
    requires
        valid_before(recordings@, recordings@.len() as int),
    ensures
        recordings@.len() == 0 ==> res is Err && res->Err_0@ == empty_reference_message(),
        recordings@.len() > 0 ==> res is Ok && res->Ok_0.model() == (name@, mfcc_size, recording_names(recordings@)),
{
    let ghost model = (name@, mfcc_size, recording_names(recordings@));
    let buffers: std::collections::HashMap<String, Vec<u8>> = recordings.into_iter().collect();
    match <WakewordRef as WakewordRefBuildFromBuffers>::new_from_sample_buffers(name, None, None, buffers, mfcc_size) {
        Ok(r) => Ok(Reference { spotter_ref: r, model: Ghost(model) }),
        Err(e) => Err(e),
    }
}

/// Calls `WakewordSave::save_to_buffer`: the reference serialized (as CBOR)
/// into a byte vector. Claimed, as its source shows (serializing names,
/// numbers and maps into memory has no failing path): it succeeds, and the
/// bytes encode this reference. The byte order follows the walk of the
/// reference's hash map, so nothing is claimed of the bytes themselves.
#[verifier::external_body]
fn reference_bytes(reference: Reference) -> (res: Result<ReferenceFile, String>)
    ensures
        res is Ok && res->Ok_0.model() == reference.model(),
{
    let ghost model = reference.model();
    match WakewordSave::save_to_buffer(&reference.spotter_ref) {
        Ok(bytes) => Ok(ReferenceFile { bytes, model: Ghost(model) }),
        Err(e) => Err(e),
    }
}

/// The index of the first recording that cannot be trained on, if any.
pub fn first_invalid_recording(recordings: &Vec<(String, Vec<u8>)>) -> (res: Option<usize>)
    ensures
        match res {
            Some(i) => {
                &&& i < recordings@.len()
                &&& !is_reference_recording(recordings@[i as int].1@)
                &&& valid_before(recordings@, i as int)
            },
            None => valid_before(recordings@, recordings@.len() as int),
        },
{
    let mut i: usize = 0;
    while i < recordings.len()
        invariant
            i <= recordings@.len(),
            valid_before(recordings@, i as int),
        decreases recordings.len() - i,
    {
        let ok = match wav_sample_count(recordings[i].1.as_slice(), DETECT_SAMPLE_RATE) {
            Some(n) => n >= MIN_REFERENCE_SAMPLES,
            None => false,
        };
        if !ok {
            return Some(i);
        }
        assert(is_reference_recording(recordings@[i as int].1@));
        i = i + 1;
    }
    None
}

/// The reference file of a voice pattern named `name`, trained on the
/// recordings of a session. The first recording that cannot be trained on
/// (see [`is_reference_recording`]) is refused with a wake word error
/// naming it; no recordings give the spotter's error for an empty
/// reference; otherwise the file encodes a reference named `name`, with
/// [`WAKEWORD_MFCC_SIZE`] coefficients per frame and the features of every
/// recording, by name.
pub fn build_reference_file(name: &str, recordings: Vec<(String, Vec<u8>)>) -> (res: Result<
    ReferenceFile,
    VoclipError,
>)
    ensures
        recordings@.len() == 0 ==> (res matches Err(VoclipError::WakeWord(m)) && m@
            == empty_reference_message()),
        forall|i: int|
            0 <= i < recordings@.len() && !is_reference_recording(#[trigger] recordings@[i].1@)
                && valid_before(recordings@, i) ==> (res matches Err(VoclipError::WakeWord(m)) && m@
                == invalid_recording_message(recordings@[i].0@)),
        recordings@.len() > 0 && valid_before(recordings@, recordings@.len() as int) ==> (res matches Ok(f)
            && f.model() == (name@, WAKEWORD_MFCC_SIZE, recording_names(recordings@))),
{
    match first_invalid_recording(&recordings) {
        Some(i) => {
            let msg = join2("Recording is not a 16 kHz mono WAV of at least 60 ms: ", recordings[i].0.as_str());
            proof {
                reveal_strlit("Recording is not a 16 kHz mono WAV of at least 60 ms: ");
                assert forall|k: int|
                    0 <= k < recordings@.len() && !is_reference_recording(#[trigger] recordings@[k].1@)
                        && valid_before(recordings@, k) implies k == i by {
                    if k < i {
                        assert(is_reference_recording(recordings@[k].1@));
                    } else if k > i {
                        assert(is_reference_recording(recordings@[i as int].1@));
                    }
                }
            }
            Err(VoclipError::WakeWord(msg))
        },
        None => {
            match reference_from_recordings(String::from_str(name), recordings, WAKEWORD_MFCC_SIZE) {
                Err(e) => Err(VoclipError::WakeWord(e)),
                Ok(reference) => match reference_bytes(reference) {
                    Err(e) => Err(VoclipError::WakeWord(e)),
                    Ok(file) => Ok(file),
                },
            }
        },
    }
}

/// The file names `sample_1.wav` to `sample_n.wav` of a session of `n`
/// recordings.
pub open spec fn training_names(n: nat) -> Set<Seq<char>> {
    Set::new(|name: Seq<char>| exists|k: nat| 1 <= k <= n && name == #[trigger] sample_file_name(k))
}

/// The recordings of a completed training session of `n` recordings are
/// kept in its reference under the names `sample_1.wav` to `sample_n.wav`.
pub proof fn lemma_training_reference_names(s: TrainingSession, recordings: Seq<(String, Vec<u8>)>)
    requires
        s.wf(),
        s.spec_next() > s.spec_total(),
        samples_view(recordings) == s.spec_samples(),
    ensures
        recording_names(recordings) == training_names(s.spec_total()),
{
    let names = recordings.map_values(|r: (String, Vec<u8>)| r.0@);
    let want = training_names(s.spec_total());
    assert forall|k: int| 0 <= k < recordings.len() implies names[k] == sample_file_name((k + 1) as nat) by {
        assert(samples_view(recordings)[k] == s.spec_samples()[k]);
    }
    assert forall|n: Seq<char>| names.to_set().contains(n) implies want.contains(n) by {
        let i = choose|i: int| 0 <= i < names.len() && names[i] == n;
        let k: nat = (i + 1) as nat;
        assert(1 <= k <= s.spec_total() && n == sample_file_name(k));
    }
    assert forall|n: Seq<char>| want.contains(n) implies names.to_set().contains(n) by {
        let k = choose|k: nat| 1 <= k <= s.spec_total() && n == #[trigger] sample_file_name(k);
        assert(names[k - 1] == n);
        assert(names.contains(n));
    }
    assert(names.to_set() =~= want);
}

/// The first `k` frames of `size` samples at the front of `audio`.
pub open spec fn leading_frames(audio: Seq<i16>, size: int, k: int) -> Seq<Seq<i16>> {
    Seq::new(k as nat, |j: int| audio.subrange(j * size, j * size + size))
}

/// Whether a detector whose record was `before` and is now `after` has been
/// fed the frames of `size` samples at the front of `audio`, one entry each
/// and in order, and `rest` is what of `audio` follows them.
pub open spec fn fed_front_frames(
    before: Seq<FedFrame>,
    after: Seq<FedFrame>,
    audio: Seq<i16>,
    size: int,
    rest: Seq<i16>,
) -> bool {
    let k = after.len() - before.len();
    &&& k >= 0
    &&& after.take(before.len() as int) == before
    &&& k * size <= audio.len()
    &&& rest == audio.skip(k * size)
    &&& after.skip(before.len() as int).map_values(|e: FedFrame| e.0) == leading_frames(audio, size, k)
}

/// Whether a detector's answer belongs to one of the patterns (see
/// [`crate::wakeword::is_pattern_for`]).
pub open spec fn fits_pattern(
    answer: Option<(Seq<char>, Seq<char>)>,
    patterns: Seq<VoicePattern>,
    trained: Seq<bool>,
) -> bool {
    match answer {
        Some((name, _)) => !no_pattern_for(patterns, name, trained),
        None => false,
    }
}

/// The detections among a detector's answers, in order.
pub open spec fn detections_in(fed: Seq<FedFrame>) -> Seq<(Seq<char>, Seq<char>)>
    decreases fed.len(),
{
    if fed.len() == 0 {
        Seq::empty()
    } else {
        let earlier = detections_in(fed.drop_last());
        match fed.last().1 {
            Some(d) => earlier.push(d),
            None => earlier,
        }
    }
}

proof fn lemma_fed_nothing(fed: Seq<FedFrame>, audio: Seq<i16>, size: int)
    ensures
        fed_front_frames(fed, fed, audio, size, audio),
{
    assert(0 * size == 0) by (nonlinear_arith);
    assert(audio.skip(0) =~= audio);
    assert(fed.take(fed.len() as int) =~= fed);
    assert(fed.skip(fed.len() as int).map_values(|e: FedFrame| e.0) =~= leading_frames(audio, size, 0));
}

proof fn lemma_feed_frame(
    before: Seq<FedFrame>,
    after: Seq<FedFrame>,
    audio: Seq<i16>,
    size: int,
    rest: Seq<i16>,
    entry: FedFrame,
)
    requires
        fed_front_frames(before, after, audio, size, rest),
        size > 0,
        rest.len() >= size,
        entry.0 == rest.take(size),
    ensures
        fed_front_frames(before, after.push(entry), audio, size, rest.skip(size)),
        after.push(entry).skip(before.len() as int) == after.skip(before.len() as int).push(entry),
{
    let k = after.len() - before.len();
    let after2 = after.push(entry);
    assert((k + 1) * size == k * size + size) by (nonlinear_arith);
    assert(after2.take(before.len() as int) =~= before);
    assert(rest.skip(size) =~= audio.skip(k * size + size));
    assert(after2.skip(before.len() as int) =~= after.skip(before.len() as int).push(entry));
    assert(entry.0 =~= audio.subrange(k * size, k * size + size));
    assert(leading_frames(audio, size, k + 1) =~= leading_frames(audio, size, k).push(
        audio.subrange(k * size, k * size + size),
    ));
    assert(after2.skip(before.len() as int).map_values(|e: FedFrame| e.0) =~= after.skip(
        before.len() as int,
    ).map_values(|e: FedFrame| e.0).push(entry.0));
}

/// Feeds the buffered audio to the detector frame by frame, from the front,
/// until a frame gives a detection that belongs to a pattern (see
/// [`crate::wakeword::is_pattern_for`]); returns that pattern's index and
/// the detection. The frames fed are exactly the whole frames taken from
/// the front of the buffer, in order; each before the last gave no
/// detection that fits a pattern. When nothing is found, none did, and
/// less than a frame is left.
pub fn next_detection(
    detector: &mut Detector,
    buffer: &mut FrameBuffer,
    frame_size: usize,
    patterns: &Vec<VoicePattern>,
    trained: &Vec<bool>,
) -> (res: Option<(usize, Detection)>)
    requires
        frame_size > 0,
        trained@.len() == patterns@.len(),
    ensures
        fed_front_frames(old(detector).fed(), final(detector).fed(), old(buffer)@, frame_size as int, final(buffer)@),
        ({
            let fed = final(detector).fed().skip(old(detector).fed().len() as int);
            match res {
                Some((i, d)) => {
                    &&& fed.len() > 0
                    &&& fed.last().1 == Some(d@)
                    &&& is_pattern_for(patterns@, d.name@, trained@, i as int)
                    &&& forall|j: int| 0 <= j < fed.len() - 1 ==> !fits_pattern(#[trigger] fed[j].1, patterns@, trained@)
                },
                None => {
                    &&& final(buffer)@.len() < frame_size
                    &&& forall|j: int| 0 <= j < fed.len() ==> !fits_pattern(#[trigger] fed[j].1, patterns@, trained@)
                },
            }
        }),
{
    let ghost start = detector.fed();
    proof {
        lemma_fed_nothing(start, buffer@, frame_size as int);
    }
    while buffer.len() >= frame_size
        invariant
            frame_size > 0,
            trained@.len() == patterns@.len(),
            start == old(detector).fed(),
            fed_front_frames(start, detector.fed(), old(buffer)@, frame_size as int, buffer@),
            forall|j: int|
                0 <= j < detector.fed().len() - start.len() ==> !fits_pattern(
                    #[trigger] detector.fed().skip(start.len() as int)[j].1,
                    patterns@,
                    trained@,
                ),
        decreases buffer@.len(),
    {
        let ghost fed_before = detector.fed();
        let ghost rest = buffer@;
        let frame = buffer.pop_frame(frame_size).unwrap();
        let ghost frame_view = frame@;
        let answer = detector_process(detector, frame);
        proof {
            lemma_feed_frame(start, fed_before, old(buffer)@, frame_size as int, rest, (frame_view, answer_of(answer)));
        }
        if let Some(d) = answer {
            if let Some(i) = find_pattern(patterns, d.name.as_str(), trained) {
                proof {
                    let fed = detector.fed().skip(start.len() as int);
                    assert(fed.last() == (frame_view, answer_of(answer)));
                    assert forall|j: int| 0 <= j < fed.len() - 1 implies !fits_pattern(#[trigger] fed[j].1, patterns@, trained@) by {
                        assert(fed[j] == fed_before.skip(start.len() as int)[j]);
                    }
                }
                return Some((i, d));
            }
        }
        proof {
            let fed = detector.fed().skip(start.len() as int);
            assert forall|j: int| 0 <= j < fed.len() implies !fits_pattern(#[trigger] fed[j].1, patterns@, trained@) by {
                if j < fed.len() - 1 {
                    assert(fed[j] == fed_before.skip(start.len() as int)[j]);
                }
            }
        }
    }
    None
}

/// Feeds every whole frame of the buffered audio to the detector, from the
/// front and in order, and returns the detections among its answers, in
/// order. Less than a frame is left.
pub fn all_detections(detector: &mut Detector, buffer: &mut FrameBuffer, frame_size: usize) -> (res:
    Vec<Detection>)
    requires
        frame_size > 0,
    ensures
        fed_front_frames(old(detector).fed(), final(detector).fed(), old(buffer)@, frame_size as int, final(buffer)@),
        res@.map_values(|d: Detection| d@) == detections_in(final(detector).fed().skip(old(detector).fed().len() as int)),
        final(buffer)@.len() < frame_size,
{
    let ghost start = detector.fed();
    let mut found: Vec<Detection> = Vec::new();
    proof {
        lemma_fed_nothing(start, buffer@, frame_size as int);
        assert(found@.map_values(|d: Detection| d@) =~= detections_in(detector.fed().skip(start.len() as int)));
    }
    while buffer.len() >= frame_size
        invariant
            frame_size > 0,
            start == old(detector).fed(),
            fed_front_frames(start, detector.fed(), old(buffer)@, frame_size as int, buffer@),
            found@.map_values(|d: Detection| d@) == detections_in(detector.fed().skip(start.len() as int)),
        decreases buffer@.len(),
    {
        let ghost fed_before = detector.fed();
        let ghost rest = buffer@;
        let frame = buffer.pop_frame(frame_size).unwrap();
        let ghost frame_view = frame@;
        let answer = detector_process(detector, frame);
        proof {
            lemma_feed_frame(start, fed_before, old(buffer)@, frame_size as int, rest, (frame_view, answer_of(answer)));
            let fed = detector.fed().skip(start.len() as int);
            assert(fed.drop_last() =~= fed_before.skip(start.len() as int));
        }
        let ghost found_before = found@;
        if let Some(d) = answer {
            found.push(d);
            proof {
                assert(found@.map_values(|d: Detection| d@) =~= found_before.map_values(|d: Detection| d@).push(d@));
            }
        }
    }
    found
}

} // verus!
