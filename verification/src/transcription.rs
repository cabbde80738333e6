//! The streaming transcription session: the service addresses, how the
//! messages of the service are handled, and how the final transcript is
//! formed.
use vstd::prelude::*;
use crate::error::VoclipError;
use crate::text::{decimal, decimal_string, join2, join3, str_eq, trim, trimmed};

verus! {

broadcast use vstd::string::group_string_axioms;

/// The address from which a temporary streaming token is requested.
pub const TOKEN_URL: &'static str = "https://streaming.assemblyai.com/v3/token?expires_in_seconds=600";

/// The error for a token request that the service refused, naming its
/// status and the body of its answer.
pub fn token_fetch_error(status: &str, body: &str) -> (res: VoclipError)
    ensures
        res matches VoclipError::TokenFetch(m) && m@ == status@ + ": "@ + body@,
{
    VoclipError::TokenFetch(join3(status, ": ", body))
}

/// The streaming address for a token, a silence timeout in seconds and a
/// model's API name: 16 kHz 16-bit PCM, formatted turns, and the timeout in
/// milliseconds as both the least and the most silence that ends a turn.
pub open spec fn stream_url_spec(token: Seq<char>, timeout_secs: u32, model: Seq<char>) -> Seq<
    char,
> {
    let ms = decimal(timeout_secs as nat * 1000);
    "wss://streaming.assemblyai.com/v3/ws?token="@ + token + "&speech_model="@ + model
        + "&sample_rate=16000&encoding=pcm_s16le&format_turns=true&min_turn_silence="@ + ms
        + "&max_turn_silence="@ + ms
}

/// The streaming address (see [`stream_url_spec`]).
pub fn stream_url(token: &str, timeout_secs: u32, speech_model: &str) -> (res: String)
    ensures
        res@ == stream_url_spec(token@, timeout_secs, speech_model@),
{
    let timeout_ms: u64 = timeout_secs as u64 * 1000;
    let ms = decimal_string(timeout_ms);
    let mut url = join2("wss://streaming.assemblyai.com/v3/ws?token=", token);
    url.append("&speech_model=");
    url.append(speech_model);
    url.append("&sample_rate=16000&encoding=pcm_s16le&format_turns=true&min_turn_silence=");
    url.append(ms.as_str());
    url.append("&max_turn_silence=");
    url.append(ms.as_str());
    url
}

/// A message of the service, with the fields the session reads.
pub struct WsMessage {
    pub msg_type: Option<String>,
    pub transcript: Option<String>,
    pub end_of_turn: Option<bool>,
    pub error: Option<String>,
}

/// What a message means for the session.
pub enum WsStep {
    /// The session has begun.
    SessionStarted,
    /// A turn is under way; its text so far is shown.
    Partial(String),
    /// A turn is under way with no text yet.
    Quiet,
    /// A turn has ended with this text; the session is over.
    TurnComplete(String),
    /// The service reported an error; the session is over.
    ApiError(String),
    /// The service ended the session.
    Terminated,
    /// A message of a type the session does not know.
    Unhandled(String),
}

/// The meaning of a step, with its texts as character sequences.
pub enum StepView {
    SessionStarted,
    Partial(Seq<char>),
    Quiet,
    TurnComplete(Seq<char>),
    ApiError(Seq<char>),
    Terminated,
    Unhandled(Seq<char>),
}

impl View for WsStep {
    type V = StepView;

    open spec fn view(&self) -> StepView {
        match self {
            WsStep::SessionStarted => StepView::SessionStarted,
            WsStep::Partial(t) => StepView::Partial(t@),
            WsStep::Quiet => StepView::Quiet,
            WsStep::TurnComplete(t) => StepView::TurnComplete(t@),
            WsStep::ApiError(e) => StepView::ApiError(e@),
            WsStep::Terminated => StepView::Terminated,
            WsStep::Unhandled(k) => StepView::Unhandled(k@),
        }
    }
}

/// Whether a step ends the session.
pub open spec fn ends_session(step: StepView) -> bool {
    step is TurnComplete || step is ApiError || step is Terminated
}

/// The text of an optional field; empty when the field is absent.
pub open spec fn text_or_empty(s: Option<String>) -> Seq<char> {
    match s {
        Some(t) => t@,
        None => Seq::empty(),
    }
}

/// The transcript after a turn with text `t` has ended.
pub open spec fn append_turn(full: Seq<char>, t: Seq<char>) -> Seq<char> {
    if t.len() == 0 {
        full
    } else if full.len() == 0 {
        t
    } else {
        full + " "@ + t
    }
}

/// The transcript after a message, given the transcript before it.
pub open spec fn transcript_after(full: Seq<char>, msg: WsMessage) -> Seq<char> {
    if msg.error is None && text_or_empty(msg.msg_type) == "Turn"@ && msg.end_of_turn == Some(
        true,
    ) {
        append_turn(full, text_or_empty(msg.transcript))
    } else {
        full
    }
}

/// The step of a message: an error field ends the session; then the type
/// decides: `Begin`, `Turn` (ended or under way), `Termination`, or another.
pub open spec fn step_of(msg: WsMessage) -> StepView {
    let kind = text_or_empty(msg.msg_type);
    let t = text_or_empty(msg.transcript);
    match msg.error {
        Some(e) => StepView::ApiError(e@),
        None => if kind == "Begin"@ {
            StepView::SessionStarted
        } else if kind == "Turn"@ {
            if msg.end_of_turn == Some(true) {
                StepView::TurnComplete(t)
            } else if t.len() > 0 {
                StepView::Partial(t)
            } else {
                StepView::Quiet
            }
        } else if kind == "Termination"@ {
            StepView::Terminated
        } else {
            StepView::Unhandled(kind)
        },
    }
}

/// The final transcript of one streaming session.
pub struct WsResult {
    pub transcript: String,
}

/// Follows the messages of one session and keeps its transcript.
pub struct TranscriptCollector {
    full: String,
    finished: bool,
}

impl View for TranscriptCollector {
    type V = (Seq<char>, bool);

    closed spec fn view(&self) -> (Seq<char>, bool) {
        (self.full@, self.finished)
    }
}

fn optional_text(s: &Option<String>) -> (res: &str)
    ensures
        res@ == text_or_empty(*s),
{
    proof {
        reveal_strlit("");
    }
    match s {
        Some(t) => {
            let r = t.as_str();
            r
        },
        None => {
            let r = "";
            assert(r@ =~= Seq::<char>::empty());
            r
        },
    }
}

impl TranscriptCollector {
    /// A session that has not begun: empty transcript, not finished.
    pub fn new() -> (res: TranscriptCollector)
        ensures
            res@ == (Seq::<char>::empty(), false),
    {
        TranscriptCollector { full: String::new(), finished: false }
    }

    /// Whether the session is over.
    pub fn is_finished(&self) -> (res: bool)
        ensures
            res == self@.1,
    {
        self.finished
    }

    /// Handles one message of a session that is not over yet.
    pub fn on_message(&mut self, msg: &WsMessage) -> (step: WsStep)
        requires
            !old(self)@.1,
        ensures
            step@ == step_of(*msg),
            final(self)@.0 == transcript_after(old(self)@.0, *msg),
            final(self)@.1 == ends_session(step@),
    {
        if let Some(e) = &msg.error {
            self.finished = true;
            return WsStep::ApiError(e.clone());
        }
        let kind = optional_text(&msg.msg_type);
        let t = optional_text(&msg.transcript);
        proof {
            reveal_strlit(" ");
            reveal_strlit("Begin");
            reveal_strlit("Turn");
            reveal_strlit("Termination");
            assert("Begin"@.len() != "Turn"@.len());
        }
        if str_eq(kind, "Begin") {
            WsStep::SessionStarted
        } else if str_eq(kind, "Turn") {
            if msg.end_of_turn == Some(true) {
                if t.unicode_len() > 0 {
                    if self.full.as_str().unicode_len() > 0 {
                        self.full.append(" ");
                    }
                    self.full.append(t);
                }
                self.finished = true;
                WsStep::TurnComplete(String::from_str(t))
            } else if t.unicode_len() > 0 {
                WsStep::Partial(String::from_str(t))
            } else {
                WsStep::Quiet
            }
        } else if str_eq(kind, "Termination") {
            self.finished = true;
            WsStep::Terminated
        } else {
            WsStep::Unhandled(String::from_str(kind))
        }
    }

    /// The result of the session: its transcript so far.
    pub fn into_result(self) -> (res: WsResult)
        ensures
            res.transcript@ == self@.0,
    {
        WsResult { transcript: self.full }
    }
}

/// The transcript that a session ends with, when it starts empty and is fed
/// `msgs` until one of them ends it.
pub open spec fn session_transcript(full: Seq<char>, msgs: Seq<WsMessage>) -> Seq<char>
    decreases msgs.len(),
{
    if msgs.len() == 0 {
        full
    } else {
        let next = transcript_after(full, msgs[0]);
        if ends_session(step_of(msgs[0])) {
            next
        } else {
            session_transcript(next, msgs.drop_first())
        }
    }
}

/// The text of the turn that ends a session, if a completed turn ends it;
/// empty otherwise.
pub open spec fn ending_turn_text(msgs: Seq<WsMessage>) -> Seq<char>
    decreases msgs.len(),
{
    if msgs.len() == 0 {
        Seq::empty()
    } else {
        match step_of(msgs[0]) {
            StepView::TurnComplete(t) => t,
            StepView::ApiError(_) => Seq::empty(),
            StepView::Terminated => Seq::empty(),
            _ => ending_turn_text(msgs.drop_first()),
        }
    }
}

/// A session's transcript is the text of the completed turn that ends it:
/// partial turns, unknown messages and the start of the session leave it
/// empty, and an error or a termination ends the session with it empty.
pub proof fn lemma_session_transcript_is_ending_turn(msgs: Seq<WsMessage>)
    ensures
        session_transcript(Seq::empty(), msgs) == ending_turn_text(msgs),
    decreases msgs.len(),
{
    if msgs.len() > 0 {
        let m = msgs[0];
        if !ends_session(step_of(m)) {
            reveal_strlit("Begin");
            reveal_strlit("Turn");
            assert("Begin"@.len() != "Turn"@.len());
            assert(transcript_after(Seq::empty(), m) == Seq::<char>::empty());
            lemma_session_transcript_is_ending_turn(msgs.drop_first());
        }
    }
}

/// A completed turn's text is kept exactly as the service sent it: the step
/// carries the message's transcript unchanged, a fresh session's transcript
/// becomes that text, and a later turn is added after a single space.
pub proof fn lemma_completed_turn_keeps_text(msg: WsMessage, full: Seq<char>)
    requires
        msg.error is None,
        msg.msg_type matches Some(k) && k@ == "Turn"@,
        msg.end_of_turn == Some(true),
    ensures
        msg.transcript matches Some(t) ==> step_of(msg) == StepView::TurnComplete(t@),
        msg.transcript is None ==> step_of(msg) == StepView::TurnComplete(Seq::empty()),
        msg.transcript matches Some(t) ==> transcript_after(Seq::empty(), msg) == t@,
        msg.transcript matches Some(t) ==> (t@.len() > 0 && full.len() > 0 ==> transcript_after(
            full,
            msg,
        ) == full + " "@ + t@),
        msg.transcript is None ==> transcript_after(full, msg) == full,
        ends_session(step_of(msg)),
{
    reveal_strlit("Begin");
    reveal_strlit("Turn");
    assert("Begin"@.len() != "Turn"@.len());
}

/// A turn under way changes nothing of the transcript and shows its text
/// as it is; an error field ends the session with the service's message,
/// whatever else the message holds.
pub proof fn lemma_partial_turns_and_errors(msg: WsMessage, full: Seq<char>)
    ensures
        msg.error is None && (msg.msg_type matches Some(k) && k@ == "Turn"@) && msg.end_of_turn
            != Some(true) ==> transcript_after(full, msg) == full && (msg.transcript matches Some(t)
            ==> (t@.len() > 0 ==> step_of(msg) == StepView::Partial(t@))),
        msg.error matches Some(e) ==> step_of(msg) == StepView::ApiError(e@) && transcript_after(
            full,
            msg,
        ) == full && ends_session(step_of(msg)),
{
    reveal_strlit("Begin");
    reveal_strlit("Turn");
    assert("Begin"@.len() != "Turn"@.len());
}

/// The transcript of a finished session as it is delivered: without leading
/// and trailing whitespace, and nothing when that leaves it empty.
pub fn finalize_transcript(raw: &str) -> (res: Option<String>)
    ensures
        match res {
            Some(t) => t@ == trimmed(raw@) && t@.len() > 0,
            None => trimmed(raw@).len() == 0,
        },
{
    let t = trim(raw);
    if t.unicode_len() == 0 {
        None
    } else {
        Some(String::from_str(t))
    }
}

} // verus!
