//! The speech models of the streaming transcription service, their names on
//! the command line and in the service's API.
use vstd::prelude::*;
use crate::text::{all_ascii, ascii_lowercase, lowercased, str_eq, to_lowercase};

verus! {

broadcast use vstd::string::group_string_axioms;

/// The streaming speech models that the transcription service offers.
#[derive(Debug, Clone, Copy, PartialEq, Eq, Structural)]
pub enum SpeechModel {
    U3RtPro,
    UniversalEnglish,
    UniversalMultilingual,
    WhisperRt,
}

/// The model that an already lowercased user-facing name selects.
pub open spec fn model_for_lowercase(s: Seq<char>) -> Option<SpeechModel> {
    if s == "auto"@ || s == "u3-rt-pro"@ || s == "u3"@ {
        Some(SpeechModel::U3RtPro)
    } else if s == "english"@ || s == "en"@ {
        Some(SpeechModel::UniversalEnglish)
    } else if s == "multilingual"@ || s == "multi"@ {
        Some(SpeechModel::UniversalMultilingual)
    } else if s == "whisper"@ || s == "whisper-rt"@ {
        Some(SpeechModel::WhisperRt)
    } else {
        None
    }
}

/// The model that a user-facing name selects, case-insensitively: the name
/// is lowercased first (for an ASCII name, `A`..`Z` become `a`..`z`).
pub open spec fn model_for_name(s: Seq<char>) -> Option<SpeechModel> {
    model_for_lowercase(lowercased(s))
}

impl SpeechModel {
    pub open spec fn spec_api_name(self) -> Seq<char> {
        match self {
            SpeechModel::U3RtPro => "u3-rt-pro"@,
            SpeechModel::UniversalEnglish => "universal-streaming-english"@,
            SpeechModel::UniversalMultilingual => "universal-streaming-multilingual"@,
            SpeechModel::WhisperRt => "whisper-rt"@,
        }
    }

    pub open spec fn spec_cli_name(self) -> Seq<char> {
        match self {
            SpeechModel::U3RtPro => "u3-rt-pro"@,
            SpeechModel::UniversalEnglish => "english"@,
            SpeechModel::UniversalMultilingual => "multilingual"@,
            SpeechModel::WhisperRt => "whisper-rt"@,
        }
    }

    pub open spec fn spec_description(self) -> Seq<char> {
        match self {
            SpeechModel::U3RtPro => "Latest model, best quality (default)"@,
            SpeechModel::UniversalEnglish => "English only, optimized for English speech"@,
            SpeechModel::UniversalMultilingual => "Multi-language support, auto-detects language"@,
            SpeechModel::WhisperRt => "Whisper-based real-time model"@,
        }
    }

    /// The model that a name selects: the name is lowercased first, then
    /// `auto`, `u3-rt-pro` and `u3` select [`SpeechModel::U3RtPro`], `english`
    /// and `en` the English model, `multilingual` and `multi` the
    /// multilingual one, `whisper` and `whisper-rt` the Whisper one.
    pub fn from_name(s: &str) -> (res: Option<SpeechModel>)
        ensures
            res == model_for_name(s@),
    {
        let lower = to_lowercase(s);
        Self::from_lowercase_name(lower.as_str())
    }

    /// The model that an already lowercased name selects (see [`Self::from_name`]).
    pub fn from_lowercase_name(s: &str) -> (res: Option<SpeechModel>)
        ensures
            res == model_for_lowercase(s@),
    {
        if str_eq(s, "auto") || str_eq(s, "u3-rt-pro") || str_eq(s, "u3") {
            Some(SpeechModel::U3RtPro)
        } else if str_eq(s, "english") || str_eq(s, "en") {
            Some(SpeechModel::UniversalEnglish)
        } else if str_eq(s, "multilingual") || str_eq(s, "multi") {
            Some(SpeechModel::UniversalMultilingual)
        } else if str_eq(s, "whisper") || str_eq(s, "whisper-rt") {
            Some(SpeechModel::WhisperRt)
        } else {
            None
        }
    }

    /// The model's name in the service's API.
    pub fn api_name(&self) -> (res: &'static str)
        ensures
            res@ == self.spec_api_name(),
    {
        match self {
            SpeechModel::U3RtPro => "u3-rt-pro",
            SpeechModel::UniversalEnglish => "universal-streaming-english",
            SpeechModel::UniversalMultilingual => "universal-streaming-multilingual",
            SpeechModel::WhisperRt => "whisper-rt",
        }
    }

    /// The model's name on the command line and in the config file.
    pub fn cli_name(&self) -> (res: &'static str)
        ensures
            res@ == self.spec_cli_name(),
    {
        match self {
            SpeechModel::U3RtPro => "u3-rt-pro",
            SpeechModel::UniversalEnglish => "english",
            SpeechModel::UniversalMultilingual => "multilingual",
            SpeechModel::WhisperRt => "whisper-rt",
        }
    }

    /// A one-line description of the model.
    pub fn description(&self) -> (res: &'static str)
        ensures
            res@ == self.spec_description(),
    {
        match self {
            SpeechModel::U3RtPro => "Latest model, best quality (default)",
            SpeechModel::UniversalEnglish => "English only, optimized for English speech",
            SpeechModel::UniversalMultilingual => "Multi-language support, auto-detects language",
            SpeechModel::WhisperRt => "Whisper-based real-time model",
        }
    }

    /// Every model, in the order in which they are listed to the user.
    pub fn all() -> (res: &'static [SpeechModel])
        ensures
            res@ == all_models(),
    {
        let res: &'static [SpeechModel] = &[
            SpeechModel::U3RtPro,
            SpeechModel::UniversalEnglish,
            SpeechModel::UniversalMultilingual,
            SpeechModel::WhisperRt,
        ];
        assert(res@ =~= all_models());
        res
    }
}

/// The models in their listing order.
pub open spec fn all_models() -> Seq<SpeechModel> {
    seq![
        SpeechModel::U3RtPro,
        SpeechModel::UniversalEnglish,
        SpeechModel::UniversalMultilingual,
        SpeechModel::WhisperRt,
    ]
}

/// The command-line name of every model selects that model again.
pub proof fn lemma_cli_name_selects_model(m: SpeechModel)
    ensures
        model_for_lowercase(m.spec_cli_name()) == Some(m),
{
    reveal_strlit("auto");
    reveal_strlit("u3-rt-pro");
    reveal_strlit("u3");
    reveal_strlit("english");
    reveal_strlit("en");
    reveal_strlit("multilingual");
    reveal_strlit("multi");
    reveal_strlit("whisper");
    reveal_strlit("whisper-rt");
    match m {
        SpeechModel::U3RtPro => {},
        SpeechModel::UniversalEnglish => {
            assert("english"@.len() != "auto"@.len());
            assert("english"@.len() != "u3-rt-pro"@.len());
            assert("english"@.len() != "u3"@.len());
        },
        SpeechModel::UniversalMultilingual => {
            assert("multilingual"@.len() != "auto"@.len());
            assert("multilingual"@.len() != "u3-rt-pro"@.len());
            assert("multilingual"@.len() != "u3"@.len());
            assert("multilingual"@.len() != "english"@.len());
            assert("multilingual"@.len() != "en"@.len());
        },
        SpeechModel::WhisperRt => {
            assert("whisper-rt"@.len() != "auto"@.len());
            assert("whisper-rt"@.len() != "u3-rt-pro"@.len());
            assert("whisper-rt"@.len() != "u3"@.len());
            assert("whisper-rt"@.len() != "english"@.len());
            assert("whisper-rt"@.len() != "en"@.len());
            assert("whisper-rt"@.len() != "multilingual"@.len());
            assert("whisper-rt"@.len() != "multi"@.len());
            assert("whisper-rt"@.len() != "whisper"@.len());
        },
    }
}

proof fn lemma_lowercase_ascii_unchanged(s: Seq<char>)
    requires
        forall|i: int| 0 <= i < s.len() ==> (#[trigger] s[i] as u32) < 128 && !('A' <= s[i] && s[i] <= 'Z'),
    ensures
        all_ascii(s),
        ascii_lowercase(s) == s,
{
    assert(ascii_lowercase(s) =~= s);
}

/// A command-line name is ASCII without capitals, so lowercasing keeps it.
pub proof fn lemma_cli_name_is_lowercase_ascii(m: SpeechModel)
    ensures
        all_ascii(m.spec_cli_name()),
        ascii_lowercase(m.spec_cli_name()) == m.spec_cli_name(),
{
    reveal_strlit("u3-rt-pro");
    reveal_strlit("english");
    reveal_strlit("multilingual");
    reveal_strlit("whisper-rt");
    lemma_lowercase_ascii_unchanged(m.spec_cli_name());
}

/// Every model's command-line name selects that model, as the config file
/// saves it and as a user types it.
pub proof fn lemma_cli_name_round_trip(m: SpeechModel)
    ensures
        model_for_name(m.spec_cli_name()) == Some(m),
{
    lemma_cli_name_is_lowercase_ascii(m);
    lemma_cli_name_selects_model(m);
}

/// Different models have different API names.
pub proof fn lemma_api_names_distinct(a: SpeechModel, b: SpeechModel)
    requires
        a != b,
    ensures
        a.spec_api_name() != b.spec_api_name(),
{
    reveal_strlit("u3-rt-pro");
    reveal_strlit("universal-streaming-english");
    reveal_strlit("universal-streaming-multilingual");
    reveal_strlit("whisper-rt");
    let x = a.spec_api_name();
    let y = b.spec_api_name();
    if x == y {
        assert(x.len() == y.len());
        assert(x[0] == y[0]);
        assert(x[20] == y[20]);
    }
}

/// The listing holds every model exactly once.
pub proof fn lemma_all_models_listed_once(m: SpeechModel)
    ensures
        all_models().contains(m),
        forall|i: int, j: int|
            0 <= i < j < all_models().len() ==> all_models()[i] != all_models()[j],
{
    match m {
        SpeechModel::U3RtPro => assert(all_models()[0] == m),
        SpeechModel::UniversalEnglish => assert(all_models()[1] == m),
        SpeechModel::UniversalMultilingual => assert(all_models()[2] == m),
        SpeechModel::WhisperRt => assert(all_models()[3] == m),
    }
}

} // verus!
