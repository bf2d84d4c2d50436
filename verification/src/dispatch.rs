//! Dispatch of one user utterance.
//!
//! An utterance arrives with a mode selector: speak the text verbatim, or
//! first generate a response and speak that. The utterance text carries the
//! mode's prefix; stripping it yields the payload. An utterance is accepted
//! only if its prefix matches the mode and the payload is non-empty after
//! stripping; anything else is a no-op, not an error.
//!
//! The rest of the pipeline is decision logic between fallible calls that the
//! surrounding process performs: which backend call to make, how a generation
//! failure short-circuits, and what one finished interaction yields — at most
//! one `Play` command, exactly one transcript entry for the payload whatever
//! the synthesis outcome, and a diagnostic where synthesis failed.

use vstd::prelude::*;
use vstd::string::StrSliceExecFns;
use crate::chat_log::{ChatEntry, ChatEntryModel};
use crate::playback::{CommandModel, ControllerModel, PlaybackCommand, run};

verus! {

/// How an utterance is to be spoken, decided once at the boundary.
#[derive(Clone, Copy, Debug, PartialEq, Eq, Structural)]
pub enum Mode {
    /// Speak the payload exactly as given.
    Verbatim,
    /// Generate a response to the payload first, then speak the response.
    Generated,
}

/// The selector prefix each mode strips from the utterance.
pub open spec fn mode_prefix(mode: Mode) -> Seq<char> {
    match mode {
        Mode::Verbatim => "speak text"@,
        Mode::Generated => "speak gpt"@,
    }
}

/// Whether `s` begins with `p`.
pub open spec fn starts_with(s: Seq<char>, p: Seq<char>) -> bool {
    p.len() <= s.len() && s.subrange(0, p.len() as int) == p
}

/// `s` without its leading spaces.
pub open spec fn trim_leading_spaces(s: Seq<char>) -> Seq<char>
    decreases s.len(),
{
    if s.len() > 0 && s[0] == ' ' {
        trim_leading_spaces(s.drop_first())
    } else {
        s
    }
}

/// The payload of an utterance in a mode: the text after the mode's prefix,
/// leading spaces dropped. `None` when the prefix does not match or nothing
/// is left — such an utterance is not accepted.
pub open spec fn payload_of(mode: Mode, text: Seq<char>) -> Option<Seq<char>> {
    if starts_with(text, mode_prefix(mode)) {
        let rest = trim_leading_spaces(text.skip(mode_prefix(mode).len() as int));
        if rest.len() > 0 {
            Some(rest)
        } else {
            None
        }
    } else {
        None
    }
}

proof fn lemma_trim_skip_space(s: Seq<char>, k: int)
    requires
        0 <= k < s.len(),
        s[k] == ' ',
    ensures
        trim_leading_spaces(s.skip(k)) == trim_leading_spaces(s.skip(k + 1)),
{
    assert(s.skip(k).len() > 0);
    assert(s.skip(k)[0] == s[k]);
    assert(s.skip(k).drop_first() =~= s.skip(k + 1));
}

/// The selector prefix of a mode, as text.
pub fn mode_prefix_str(mode: Mode) -> (p: &'static str)
    ensures
        p@ == mode_prefix(mode),
{
    match mode {
        Mode::Verbatim => "speak text",
        Mode::Generated => "speak gpt",
    }
}

/// Accepts or declines one utterance: returns the payload exactly when the
/// utterance starts with the mode's prefix and a non-empty payload remains
/// after stripping the prefix and the spaces that follow it.
pub fn accept_utterance(mode: Mode, text: &str) -> (r: Option<String>)
    ensures
        match r {
            Some(payload) => payload_of(mode, text@) == Some(payload@),
            None => payload_of(mode, text@) is None,
        },
{
    let prefix = mode_prefix_str(mode);
    let n = text.unicode_len();
    let plen = prefix.unicode_len();
    if n < plen {
        return None;
    }
    let mut i: usize = 0;
    while i < plen
        invariant
            0 <= i <= plen,
            plen <= n,
            n == text@.len(),
            plen == mode_prefix(mode).len(),
            prefix@ == mode_prefix(mode),
            forall|k: int| 0 <= k < i ==> text@[k] == prefix@[k],
        decreases plen - i,
    {
        if text.get_char(i) != prefix.get_char(i) {
            proof {
                if starts_with(text@, mode_prefix(mode)) {
                    assert(text@.subrange(0, plen as int)[i as int] == text@[i as int]);
                }
            }
            return None;
        }
        i = i + 1;
    }
    assert(text@.subrange(0, plen as int) =~= prefix@);
    let mut j: usize = plen;
    while j < n && text.get_char(j) == ' '
        invariant
            plen <= j <= n,
            n == text@.len(),
            trim_leading_spaces(text@.skip(plen as int)) == trim_leading_spaces(
                text@.skip(j as int),
            ),
        decreases n - j,
    {
        proof {
            lemma_trim_skip_space(text@, j as int);
        }
        j = j + 1;
    }
    if j == n {
        proof {
            assert(text@.skip(n as int) =~= Seq::<char>::empty());
        }
        return None;
    }
    assert(text@[j as int] != ' ');
    assert(text@.skip(j as int)[0] == text@[j as int]);
    assert(trim_leading_spaces(text@.skip(j as int)) == text@.skip(j as int));
    let payload = text.substring_char(j, n).to_owned();
    assert(payload@ =~= text@.skip(j as int));
    Some(payload)
}

/// How one backend call fails.
#[derive(Clone, Copy, Debug, PartialEq, Eq, Structural)]
pub enum BackendError {
    NetworkError,
    AuthError,
    BackendUnavailable,
    EmptyInput,
}

/// How the synthesis pipeline as a whole fails, keeping the two stages of the
/// generate-then-speak pipeline apart for diagnostics.
#[derive(Clone, Copy, Debug, PartialEq, Eq, Structural)]
pub enum PipelineError {
    /// The speech-synthesis call itself failed.
    Transport(BackendError),
    /// The generation stage failed, before synthesis was attempted.
    Generation(BackendError),
}

/// The one backend call the surrounding process must make next.
pub enum SynthesisStep {
    /// Synthesize speech from this text, in a single round trip.
    CallSpeech { text: String },
    /// Ask the generative model for a response to this prompt.
    CallGeneration { prompt: String },
}

/// Which call a payload needs first: verbatim mode speaks the payload
/// directly; generate mode asks the model first.
pub fn plan_synthesis(mode: Mode, payload: String) -> (step: SynthesisStep)
    ensures
        match mode {
            Mode::Verbatim => step matches SynthesisStep::CallSpeech { text } && text@
                == payload@,
            Mode::Generated => step matches SynthesisStep::CallGeneration { prompt } && prompt@
                == payload@,
        },
{
    match mode {
        Mode::Verbatim => SynthesisStep::CallSpeech { text: payload },
        Mode::Generated => SynthesisStep::CallGeneration { prompt: payload },
    }
}

/// Continues the generate-then-speak pipeline after the generation stage: a
/// generated response goes on to speech synthesis; a generation failure
/// short-circuits before synthesis is attempted and is tagged as a
/// generation-stage failure.
pub fn after_generation(outcome: Result<String, BackendError>) -> (r: Result<
    SynthesisStep,
    PipelineError,
>)
    ensures
        match outcome {
            Ok(response) => r matches Ok(SynthesisStep::CallSpeech { text }) && text@
                == response@,
            Err(e) => r == Err::<SynthesisStep, PipelineError>(PipelineError::Generation(e)),
        },
{
    match outcome {
        Ok(response) => Ok(SynthesisStep::CallSpeech { text: response }),
        Err(e) => Err(PipelineError::Generation(e)),
    }
}

/// Finishes the speech stage: audio passes through; a failure is tagged as a
/// synthesis-stage failure, distinguishable from a generation failure.
pub fn after_speech(outcome: Result<Vec<u8>, BackendError>) -> (r: Result<Vec<u8>, PipelineError>)
    ensures
        match outcome {
            Ok(audio) => r matches Ok(a) && a@ == audio@,
            Err(e) => r == Err::<Vec<u8>, PipelineError>(PipelineError::Transport(e)),
        },
{
    match outcome {
        Ok(audio) => Ok(audio),
        Err(e) => Err(PipelineError::Transport(e)),
    }
}

/// Everything one finished interaction yields.
pub struct DispatchOutcome {
    /// The command to hand to the playback queue, when synthesis succeeded.
    pub play: Option<PlaybackCommand>,
    /// The transcript entry for the user's turn, produced whatever happened.
    pub entry: ChatEntry,
    /// The failure to surface as a diagnostic, if any; never a hard failure.
    pub diagnostic: Option<PipelineError>,
}

/// The mathematical value of a `DispatchOutcome`.
#[verifier::ext_equal]
pub struct OutcomeModel {
    pub play: Option<CommandModel>,
    pub entry: ChatEntryModel,
    pub diagnostic: Option<PipelineError>,
}

impl View for DispatchOutcome {
    type V = OutcomeModel;

    open spec fn view(&self) -> OutcomeModel {
        OutcomeModel {
            play: match self.play {
                Some(c) => Some(c@),
                None => None,
            },
            entry: self.entry@,
            diagnostic: self.diagnostic,
        }
    }
}

/// What one interaction yields, as a function of the payload, the synthesis
/// outcome and the instant of the turn: success yields exactly one `Play`
/// carrying the synthesized audio and no diagnostic; failure yields no
/// command and the failure as a diagnostic; the transcript entry with the
/// payload as its body is produced either way.
pub open spec fn dispatch_outcome(
    payload: Seq<char>,
    synthesis: Result<Seq<u8>, PipelineError>,
    timestamp_millis: i64,
) -> OutcomeModel {
    OutcomeModel {
        play: match synthesis {
            Ok(audio) => Some(CommandModel::Play { audio }),
            Err(_) => None,
        },
        entry: ChatEntryModel { timestamp_millis, body: payload },
        diagnostic: match synthesis {
            Ok(_) => None,
            Err(e) => Some(e),
        },
    }
}

/// The playback commands one interaction issues: one per `Play`, none on
/// failure.
pub open spec fn commands_of(out: OutcomeModel) -> Seq<CommandModel> {
    match out.play {
        Some(c) => seq![c],
        None => seq![],
    }
}

/// The view of a synthesis result.
pub open spec fn synthesis_view(r: Result<Vec<u8>, PipelineError>) -> Result<
    Seq<u8>,
    PipelineError,
> {
    match r {
        Ok(audio) => Ok(audio@),
        Err(e) => Err(e),
    }
}

/// Assembles what one interaction yields, exactly as `dispatch_outcome` says.
pub fn complete_dispatch(
    payload: String,
    synthesis: Result<Vec<u8>, PipelineError>,
    timestamp_millis: i64,
) -> (out: DispatchOutcome)
    ensures
        out@ =~= dispatch_outcome(payload@, synthesis_view(synthesis), timestamp_millis),
{
    match synthesis {
        Ok(audio) => DispatchOutcome {
            play: Some(PlaybackCommand::Play { audio }),
            entry: ChatEntry::new(timestamp_millis, payload),
            diagnostic: None,
        },
        Err(e) => DispatchOutcome {
            play: None,
            entry: ChatEntry::new(timestamp_millis, payload),
            diagnostic: Some(e),
        },
    }
}

/// The view of an optional playback command.
pub open spec fn play_view(o: Option<PlaybackCommand>) -> Option<CommandModel> {
    match o {
        Some(c) => Some(c@),
        None => None,
    }
}

/// One whole interaction against the transcript: whatever the synthesis
/// outcome, exactly one entry with the payload as its body is appended; on
/// success the one `Play` command to enqueue is returned, on failure no
/// command and the failure as a diagnostic. Neither outcome is a hard
/// failure for the interaction.
pub fn dispatch_turn(
    log: &mut crate::chat_log::ChatLog,
    payload: String,
    synthesis: Result<Vec<u8>, PipelineError>,
    timestamp_millis: i64,
) -> (r: (Option<PlaybackCommand>, Option<PipelineError>))
    ensures
        ({
            let out = dispatch_outcome(payload@, synthesis_view(synthesis), timestamp_millis);
            &&& final(log)@ =~= old(log)@.push(out.entry)
            &&& play_view(r.0) == out.play
            &&& r.1 == out.diagnostic
        }),
{
    let out = complete_dispatch(payload, synthesis, timestamp_millis);
    let DispatchOutcome { play, entry, diagnostic } = out;
    log.append(entry);
    (play, diagnostic)
}

/// Round trip of one accepted verbatim utterance whose backend call
/// succeeded: exactly one transcript entry is produced, whose body is the
/// prefix-stripped payload, and exactly one `Play` command, carrying exactly
/// the backend's audio — non-empty whenever the backend's audio is.
pub proof fn lemma_verbatim_round_trip(
    text: Seq<char>,
    audio: Seq<u8>,
    timestamp_millis: i64,
    log: Seq<ChatEntryModel>,
)
    requires
        payload_of(Mode::Verbatim, text) is Some,
    ensures
        ({
            let payload = payload_of(Mode::Verbatim, text)->Some_0;
            let out = dispatch_outcome(payload, Ok(audio), timestamp_millis);
            &&& out.entry.body == payload
            &&& out.entry.timestamp_millis == timestamp_millis
            &&& log.push(out.entry).len() == log.len() + 1
            &&& log.push(out.entry).drop_last() =~= log
            &&& commands_of(out) =~= seq![CommandModel::Play { audio }]
            &&& out.diagnostic is None
            &&& audio.len() > 0 ==> (out.play->Some_0 matches CommandModel::Play {
                audio: a,
            } && a.len() > 0)
        }),
{
}

/// Failure isolation: when synthesis fails, the transcript entry with the
/// original payload is still produced, no playback command is issued, the
/// failure is surfaced only as a diagnostic, and any playback controller is
/// left exactly as it was by the (absent) commands of the interaction.
pub proof fn lemma_failure_isolation(
    payload: Seq<char>,
    err: PipelineError,
    timestamp_millis: i64,
    m: ControllerModel,
)
    ensures
        ({
            let out = dispatch_outcome(payload, Err(err), timestamp_millis);
            &&& out.entry.body == payload
            &&& out.entry.timestamp_millis == timestamp_millis
            &&& out.play is None
            &&& out.diagnostic == Some(err)
            &&& run(m, commands_of(out)) == m
        }),
{
}

} // verus!
