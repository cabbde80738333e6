//! Voice patterns (a wake word that starts a transcription, command words
//! that press keys): matching a detection to a pattern, counting what is
//! trained, and collecting the recordings of a training session.
use vstd::prelude::*;
use crate::text::{
    decimal,
    decimal_string,
    eq_ignore_ascii_case,
    eq_ignore_ascii_case_spec,
    join2,
    join3,
    str_eq,
    trim,
    trimmed,
};

verus! {

broadcast use vstd::string::group_string_axioms;

/// The sample rate at which voice patterns are trained and detected.
pub const DETECT_SAMPLE_RATE: u32 = 16000;

/// What a voice pattern triggers.
pub enum VoiceAction {
    /// Start a transcription (the wake word).
    Transcribe,
    /// Press the named key (a command word).
    Key(String),
}

/// A trained voice pattern: its name, the file of its reference, and what
/// it triggers.
pub struct VoicePattern {
    pub name: String,
    pub path: String,
    pub action: VoiceAction,
}

/// The key name of an action written `key:<keyname>`, if `s` is one.
pub open spec fn key_action_name(s: Seq<char>) -> Option<Seq<char>> {
    if s.len() > 4 && s.take(4) == "key:"@ {
        Some(s.skip(4))
    } else {
        None
    }
}

/// An action as the command line and the config file write it:
/// `transcribe`, or `key:` followed by the key's name.
pub open spec fn action_text(a: VoiceAction) -> Seq<char> {
    match a {
        VoiceAction::Transcribe => "transcribe"@,
        VoiceAction::Key(k) => "key:"@ + k@,
    }
}

/// The key name of a command-word action written `key:<keyname>` (with a
/// name of at least one character); `None` for anything else.
pub fn parse_key_action(s: &str) -> (res: Option<String>)
    ensures
        match key_action_name(s@) {
            Some(k) => res matches Some(r) && r@ == k,
            None => res is None,
        },
{
    let n = s.unicode_len();
    if n > 4 && str_eq(s.substring_char(0, 4), "key:") {
        assert(s@.subrange(0, 4) =~= s@.take(4));
        assert(s@.subrange(4, n as int) =~= s@.skip(4));
        Some(String::from_str(s.substring_char(4, n)))
    } else {
        proof {
            if n > 4 {
                assert(s@.subrange(0, 4) =~= s@.take(4));
            }
        }
        None
    }
}

/// How an action is written (see [`action_text`]).
pub fn action_to_text(a: &VoiceAction) -> (res: String)
    ensures
        res@ == action_text(*a),
{
    match a {
        VoiceAction::Transcribe => String::from_str("transcribe"),
        VoiceAction::Key(k) => join2("key:", k.as_str()),
    }
}

/// The action that a written action denotes: `transcribe`, or
/// `key:<keyname>` (see [`parse_key_action`]); `None` for anything else.
pub fn action_from_text(s: &str) -> (res: Option<VoiceAction>)
    ensures
        s@ == "transcribe"@ ==> res matches Some(VoiceAction::Transcribe),
        s@ != "transcribe"@ ==> match key_action_name(s@) {
            Some(k) => res matches Some(VoiceAction::Key(r)) && r@ == k,
            None => res is None,
        },
{
    if str_eq(s, "transcribe") {
        Some(VoiceAction::Transcribe)
    } else {
        match parse_key_action(s) {
            Some(k) => Some(VoiceAction::Key(k)),
            None => None,
        }
    }
}

/// A copy of an action.
pub fn copy_action(a: &VoiceAction) -> (res: VoiceAction)
    ensures
        action_text(res) == action_text(*a),
        res is Transcribe <==> *a is Transcribe,
        res matches VoiceAction::Key(r) ==> *a matches VoiceAction::Key(k) && r@ == k@,
{
    match a {
        VoiceAction::Transcribe => VoiceAction::Transcribe,
        VoiceAction::Key(k) => VoiceAction::Key(k.clone()),
    }
}

/// Writing an action and reading it back gives the action again: the wake
/// word's action is written `transcribe`, which is no key action, and a key
/// action with a name gives back that name.
pub proof fn lemma_action_text_round_trip(a: VoiceAction)
    requires
        a matches VoiceAction::Key(k) ==> k@.len() > 0,
    ensures
        (action_text(a) == "transcribe"@) <==> (a is Transcribe),
        a is Transcribe ==> key_action_name(action_text(a)) is None,
        a matches VoiceAction::Key(k) ==> key_action_name(action_text(a)) == Some(k@),
{
    reveal_strlit("transcribe");
    reveal_strlit("key:");
    match a {
        VoiceAction::Transcribe => {
            assert("transcribe"@.take(4) != "key:"@ || !("transcribe"@.take(4) == "key:"@)) by {
                assert("transcribe"@.take(4)[0] == 't');
            }
        },
        VoiceAction::Key(k) => {
            let t = "key:"@ + k@;
            assert(t.take(4) =~= "key:"@);
            assert(t.skip(4) =~= k@);
            assert(t[0] == 'k');
            assert("transcribe"@[0] == 't');
        },
    }
}

/// Whether pattern `i` is the one that a detection under `name` belongs to:
/// the first pattern with that name; failing that, the first pattern that
/// has been trained (the detector may report the name a reference was
/// trained under, which can differ from the name it is configured under).
pub open spec fn is_pattern_for(
    patterns: Seq<VoicePattern>,
    name: Seq<char>,
    trained: Seq<bool>,
    i: int,
) -> bool {
    &&& 0 <= i < patterns.len()
    &&& {
        ||| (patterns[i].name@ == name && forall|j: int| 0 <= j < i ==> #[trigger] patterns[j].name@ != name)
        ||| ((forall|j: int| 0 <= j < patterns.len() ==> #[trigger] patterns[j].name@ != name)
            && trained[i] && forall|j: int| 0 <= j < i ==> !#[trigger] trained[j])
    }
}

/// Whether no pattern fits a detection under `name`: none has that name and
/// none has been trained.
pub open spec fn no_pattern_for(patterns: Seq<VoicePattern>, name: Seq<char>, trained: Seq<bool>) -> bool {
    forall|j: int| 0 <= j < patterns.len() ==> #[trigger] patterns[j].name@ != name && !trained[j]
}

/// The pattern that a detection under `detection_name` belongs to (see
/// [`is_pattern_for`]); `trained` tells for each pattern whether its
/// reference file exists.
pub fn find_pattern(patterns: &Vec<VoicePattern>, detection_name: &str, trained: &Vec<bool>) -> (res:
    Option<usize>)
    requires
        trained@.len() == patterns@.len(),
    ensures
        match res {
            Some(i) => is_pattern_for(patterns@, detection_name@, trained@, i as int),
            None => no_pattern_for(patterns@, detection_name@, trained@),
        },
{
    let mut i: usize = 0;
    while i < patterns.len()
        invariant
            i <= patterns@.len(),
            forall|j: int| 0 <= j < i ==> #[trigger] patterns@[j].name@ != detection_name@,
        decreases patterns.len() - i,
    {
        if str_eq(patterns[i].name.as_str(), detection_name) {
            return Some(i);
        }
        i = i + 1;
    }
    let mut k: usize = 0;
    while k < patterns.len()
        invariant
            k <= patterns@.len(),
            trained@.len() == patterns@.len(),
            forall|j: int| 0 <= j < patterns@.len() ==> #[trigger] patterns@[j].name@ != detection_name@,
            forall|j: int| 0 <= j < k ==> !#[trigger] trained@[j],
        decreases patterns.len() - k,
    {
        if trained[k] {
            return Some(k);
        }
        k = k + 1;
    }
    None
}

/// How many of the trained patterns are wake words.
pub open spec fn wake_word_count(patterns: Seq<VoicePattern>, trained: Seq<bool>) -> nat
    decreases patterns.len(),
{
    if patterns.len() == 0 {
        0
    } else {
        wake_word_count(patterns.drop_last(), trained.drop_last()) + (if trained.last()
            && patterns.last().action is Transcribe {
            1nat
        } else {
            0nat
        })
    }
}

/// How many patterns are trained.
pub open spec fn trained_count(trained: Seq<bool>) -> nat
    decreases trained.len(),
{
    if trained.len() == 0 {
        0
    } else {
        trained_count(trained.drop_last()) + (if trained.last() {
            1nat
        } else {
            0nat
        })
    }
}

proof fn lemma_wake_le_trained(patterns: Seq<VoicePattern>, trained: Seq<bool>)
    requires
        patterns.len() == trained.len(),
    ensures
        wake_word_count(patterns, trained) <= trained_count(trained),
        trained_count(trained) <= trained.len(),
    decreases patterns.len(),
{
    if patterns.len() > 0 {
        lemma_wake_le_trained(patterns.drop_last(), trained.drop_last());
    }
}

/// The numbers of trained wake words and of trained command words.
pub fn pattern_counts(patterns: &Vec<VoicePattern>, trained: &Vec<bool>) -> (res: (usize, usize))
    requires
        trained@.len() == patterns@.len(),
    ensures
        res.0 == wake_word_count(patterns@, trained@),
        res.0 + res.1 == trained_count(trained@),
{
    let mut wake: usize = 0;
    let mut all: usize = 0;
    for i in 0..patterns.len()
        invariant
            trained@.len() == patterns@.len(),
            wake == wake_word_count(patterns@.take(i as int), trained@.take(i as int)),
            all == trained_count(trained@.take(i as int)),
    {
        proof {
            assert(patterns@.take(i + 1).drop_last() =~= patterns@.take(i as int));
            assert(trained@.take(i + 1).drop_last() =~= trained@.take(i as int));
            lemma_wake_le_trained(patterns@.take(i as int), trained@.take(i as int));
        }
        if trained[i] {
            all = all + 1;
            if let VoiceAction::Transcribe = patterns[i].action {
                wake = wake + 1;
            }
        }
    }
    proof {
        assert(patterns@.take(patterns@.len() as int) =~= patterns@);
        assert(trained@.take(trained@.len() as int) =~= trained@);
        lemma_wake_le_trained(patterns@, trained@);
    }
    (wake, all - wake)
}

// ---------------------------------------------------------------------------
// Training
// ---------------------------------------------------------------------------

/// The file name under which the `i`-th recording of a training session is
/// kept.
pub open spec fn sample_file_name(i: nat) -> Seq<char> {
    "sample_"@ + decimal(i) + ".wav"@
}

/// The file name of the `i`-th recording (see [`sample_file_name`]).
pub fn sample_name(i: u32) -> (res: String)
    ensures
        res@ == sample_file_name(i as nat),
{
    let digits = decimal_string(i as u64);
    join3("sample_", digits.as_str(), ".wav")
}

/// Whether the answer to "keep this recording?" asks to record it again:
/// the answer, without surrounding whitespace, is `r` in either case.
pub open spec fn asks_redo(answer: Seq<char>) -> bool {
    eq_ignore_ascii_case_spec(trimmed(answer), "r"@)
}

/// The recordings of a training session, numbered from 1, that are
/// collected one by one until the asked number is reached.
pub struct TrainingSession {
    next: u32,
    total: u32,
    samples: Vec<(String, Vec<u8>)>,
}

/// The kept recordings as (file name, WAV bytes) pairs.
pub open spec fn samples_view(v: Seq<(String, Vec<u8>)>) -> Seq<(Seq<char>, Seq<u8>)> {
    v.map_values(|p: (String, Vec<u8>)| (p.0@, p.1@))
}

impl TrainingSession {
    /// The number of the recording asked for next.
    pub closed spec fn spec_next(&self) -> nat {
        self.next as nat
    }

    /// The number of recordings asked for.
    pub closed spec fn spec_total(&self) -> nat {
        self.total as nat
    }

    /// The recordings kept so far.
    pub closed spec fn spec_samples(&self) -> Seq<(Seq<char>, Seq<u8>)> {
        samples_view(self.samples@)
    }

    /// The session's invariant: recordings 1 to `next - 1` are kept, in
    /// order, under their file names.
    pub open spec fn wf(&self) -> bool {
        &&& 1 <= self.spec_next() <= self.spec_total() + 1
        &&& self.spec_total() < u32::MAX
        &&& self.spec_samples().len() == self.spec_next() - 1
        &&& forall|k: int|
            0 <= k < self.spec_samples().len() ==> (#[trigger] self.spec_samples()[k]).0
                == sample_file_name((k + 1) as nat)
    }

    /// A session that asks for `total` recordings.
    pub fn new(total: u32) -> (res: TrainingSession)
        requires
            total < u32::MAX,
        ensures
            res.wf(),
            res.spec_next() == 1,
            res.spec_total() == total,
    {
        let s = TrainingSession { next: 1, total, samples: Vec::new() };
        assert(s.spec_samples() =~= Seq::<(Seq<char>, Seq<u8>)>::empty());
        s
    }

    /// The number of the recording asked for next.
    pub fn current(&self) -> (res: u32)
        ensures
            res == self.spec_next(),
    {
        self.next
    }

    /// Whether every recording asked for has been kept.
    pub fn is_complete(&self) -> (res: bool)
        requires
            self.wf(),
        ensures
            res == (self.spec_next() > self.spec_total()),
    {
        self.next > self.total
    }

    /// Handles the answer given after a recording: `r` (see [`asks_redo`])
    /// discards it so that it is recorded again; any other answer keeps it
    /// under its file name and moves to the next one. Returns whether it was
    /// kept.
    pub fn review(&mut self, answer: &str, wav: Vec<u8>) -> (kept: bool)
        requires
            old(self).wf(),
            old(self).spec_next() <= old(self).spec_total(),
        ensures
            final(self).wf(),
            final(self).spec_total() == old(self).spec_total(),
            kept == !asks_redo(answer@),
            kept ==> {
                &&& final(self).spec_next() == old(self).spec_next() + 1
                &&& final(self).spec_samples() == old(self).spec_samples().push(
                    (sample_file_name(old(self).spec_next()), wav@),
                )
            },
            !kept ==> final(self).spec_next() == old(self).spec_next() && final(self).spec_samples()
                == old(self).spec_samples(),
    {
        if eq_ignore_ascii_case(trim(answer), "r") {
            return false;
        }
        let name = sample_name(self.next);
        let ghost before = self.samples@;
        let ghost w = wav@;
        self.samples.push((name, wav));
        assert(samples_view(self.samples@) =~= samples_view(before).push(
            (sample_file_name(self.next as nat), w),
        ));
        self.next = self.next + 1;
        true
    }

    /// The kept recordings, in order.
    pub fn into_samples(self) -> (res: Vec<(String, Vec<u8>)>)
        ensures
            samples_view(res@) == self.spec_samples(),
    {
        self.samples
    }
}

/// A completed training session holds exactly the recordings asked for,
/// named `sample_1.wav`, `sample_2.wav`, ... in order.
pub proof fn lemma_completed_training_names(s: TrainingSession)
    requires
        s.wf(),
        s.spec_next() > s.spec_total(),
    ensures
        s.spec_samples().len() == s.spec_total(),
        forall|k: int|
            0 <= k < s.spec_total() ==> (#[trigger] s.spec_samples()[k]).0 == sample_file_name(
                (k + 1) as nat,
            ),
{
}

} // verus!
