//! Speaking one utterance: when audio is taken from the cache, when it is
//! synthesised, and what is said where that fails.
//!
//! [`neutts_speak_cached`] opens an utterance; [`CachedSpeech::step`] takes the
//! outcome of the last action and names the next one.

use vstd::prelude::*;
use vstd::string::*;

use crate::state::{opt_text, TtsState, TtsStateView};
use crate::wav::{wav_cache_path, wav_path, Utterance};

verus! {

/// A text between quotes, with what does not print escaped.
pub uninterp spec fn quoted(text: Seq<char>) -> Seq<char>;

/// Calls the `Debug` implementation of `str`. Claims that what it writes depends
/// on the text alone.
#[verifier::external_body]
fn quote(text: &str) -> (quotation: String)
    ensures
        quotation@ == quoted(text@),
{
    format!("{text:?}")
}

/// Reads `neutts::codec::SAMPLE_RATE`, the rate of synthesised audio in hertz.
/// Claims its value.
#[verifier::external_body]
fn neutts_sample_rate() -> (rate: u32)
    ensures
        rate == 24000,
{
    neutts::codec::SAMPLE_RATE
}

/// What KittenTTS does with the outcome of a synthesis, a number of samples or
/// an error: play (`true`), nothing, or report an error.
pub open spec fn kitten_outcome(
    quotation: Seq<char>,
    outcome: Result<usize, String>,
) -> Result<bool, Seq<char>> {
    match outcome {
        Ok(samples) => Ok(samples > 0),
        Err(e) => Err("synthesis failed for "@ + quotation + ": "@ + e@),
    }
}

/// The characters of an error.
pub open spec fn error_view<T>(r: Result<T, String>) -> Result<T, Seq<char>> {
    match r {
        Ok(t) => Ok(t),
        Err(e) => Err(e@),
    }
}

/// Judges a KittenTTS synthesis of the text quoted as `quotation`.
pub fn judge_kitten(quotation: String, outcome: Result<usize, String>) -> (play: Result<
    bool,
    String,
>)
    ensures
        error_view(play) == kitten_outcome(quotation@, outcome),
{
    match outcome {
        Ok(samples) => Ok(samples > 0),
        Err(e) => Err(
            "synthesis failed for ".to_owned().concat(quotation.as_str()).concat(": ").concat(
                e.as_str(),
            ),
        ),
    }
}

/// Judges a KittenTTS synthesis of `text`. Audio without samples is not played
/// and no error.
pub fn kitten_speak_inner(text: &str, outcome: Result<usize, String>) -> (play: Result<
    bool,
    String,
>)
    ensures
        error_view(play) == kitten_outcome(quoted(text@), outcome),
{
    judge_kitten(quote(text), outcome)
}

/// What NeuTTS makes of the outcome of a synthesis: audio without samples is an
/// error.
pub open spec fn neutts_outcome(
    quotation: Seq<char>,
    outcome: Result<usize, String>,
) -> Result<(), Seq<char>> {
    match outcome {
        Ok(samples) => if samples == 0 {
            Err("synthesis returned no samples for "@ + quotation)
        } else {
            Ok(())
        },
        Err(e) => Err("neutts synthesis failed for "@ + quotation + ": "@ + e@),
    }
}

/// Judges a NeuTTS synthesis of the text quoted as `quotation`.
pub fn judge_neutts(quotation: String, outcome: Result<usize, String>) -> (verdict: Result<
    (),
    String,
>)
    ensures
        error_view(verdict) == neutts_outcome(quotation@, outcome),
{
    match outcome {
        Ok(samples) => if samples == 0 {
            Err("synthesis returned no samples for ".to_owned().concat(quotation.as_str()))
        } else {
            Ok(())
        },
        Err(e) => Err(
            "neutts synthesis failed for ".to_owned().concat(quotation.as_str()).concat(
                ": ",
            ).concat(e.as_str()),
        ),
    }
}

/// Judges a NeuTTS synthesis of `text`.
pub fn neutts_synthesize(text: &str, outcome: Result<usize, String>) -> (verdict: Result<
    (),
    String,
>)
    ensures
        error_view(verdict) == neutts_outcome(quoted(text@), outcome),
{
    judge_neutts(quote(text), outcome)
}

/// What an utterance waits for.
#[derive(Debug, PartialEq, Eq)]
pub enum CachedSpeech {
    /// Whether its audio is in the cache, at `path`.
    LookUp { path: String, text: String, codes: Vec<i32>, ref_text: String },
    /// Its audio, which goes to `path`.
    Synthesis { path: String, text: String },
    /// That its audio was written to the cache.
    Write,
    /// Nothing.
    Over,
}

/// A [`CachedSpeech`] as mathematical text.
#[verifier::ext_equal]
pub enum CachedSpeechView {
    LookUp { path: Seq<char>, text: Seq<char>, codes: Seq<i32>, ref_text: Seq<char> },
    Synthesis { path: Seq<char>, text: Seq<char> },
    Write,
    Over,
}

impl View for CachedSpeech {
    type V = CachedSpeechView;

    open spec fn view(&self) -> CachedSpeechView {
        match *self {
            CachedSpeech::LookUp { path, text, codes, ref_text } => CachedSpeechView::LookUp {
                path: path@,
                text: text@,
                codes: codes@,
                ref_text: ref_text@,
            },
            CachedSpeech::Synthesis { path, text } => CachedSpeechView::Synthesis {
                path: path@,
                text: text@,
            },
            CachedSpeech::Write => CachedSpeechView::Write,
            CachedSpeech::Over => CachedSpeechView::Over,
        }
    }
}

/// The outcome of an action.
#[derive(Debug, PartialEq, Eq)]
pub enum SpeechEvent {
    LookedUp { cached: bool },
    /// The number of samples, or an error.
    Synthesised { outcome: Result<usize, String> },
    /// Writing is over, whether it succeeded or not.
    Written,
}

/// The work to do next.
#[derive(Debug, PartialEq, Eq)]
pub enum SpeechAction {
    /// Test whether there is a file at `path`.
    LookUp { path: String },
    /// Play the file at `path`; then the utterance is over.
    PlayCached { path: String },
    /// Synthesise audio.
    Synthesise { text: String, codes: Vec<i32>, ref_text: String },
    /// Write the audio to `path`.
    Write { path: String },
    /// Play the audio; then the utterance is over.
    Play { sample_rate: u32 },
    /// Report an error; the utterance is over.
    Fail { error: String },
}

/// A [`SpeechAction`] as mathematical text.
#[verifier::ext_equal]
pub enum SpeechActionView {
    LookUp { path: Seq<char> },
    PlayCached { path: Seq<char> },
    Synthesise { text: Seq<char>, codes: Seq<i32>, ref_text: Seq<char> },
    Write { path: Seq<char> },
    Play { sample_rate: u32 },
    Fail { error: Seq<char> },
}

impl View for SpeechAction {
    type V = SpeechActionView;

    open spec fn view(&self) -> SpeechActionView {
        match *self {
            SpeechAction::LookUp { path } => SpeechActionView::LookUp { path: path@ },
            SpeechAction::PlayCached { path } => SpeechActionView::PlayCached { path: path@ },
            SpeechAction::Synthesise { text, codes, ref_text } => SpeechActionView::Synthesise {
                text: text@,
                codes: codes@,
                ref_text: ref_text@,
            },
            SpeechAction::Write { path } => SpeechActionView::Write { path: path@ },
            SpeechAction::Play { sample_rate } => SpeechActionView::Play { sample_rate },
            SpeechAction::Fail { error } => SpeechActionView::Fail { error: error@ },
        }
    }
}

/// What an utterance has decided: what it waits for, and what to do.
pub type SpeechTurn = (CachedSpeechView, SpeechActionView);

/// How an utterance starts: with a look into the cache.
pub open spec fn speech_start(
    state: TtsStateView,
    text: Seq<char>,
    codes: Seq<i32>,
    ref_text: Seq<char>,
    backbone: Seq<char>,
    gguf_file: Option<Seq<char>>,
    voice_key: Seq<char>,
) -> SpeechTurn {
    let path = wav_path(state, backbone, gguf_file, voice_key, text);
    (
        CachedSpeechView::LookUp { path, text, codes, ref_text },
        SpeechActionView::LookUp { path },
    )
}

/// Whether an event can be the outcome of what an utterance waits for.
pub open spec fn speech_expects(speech: CachedSpeechView, event: SpeechEvent) -> bool {
    match speech {
        CachedSpeechView::LookUp { .. } => event is LookedUp,
        CachedSpeechView::Synthesis { .. } => event is Synthesised,
        CachedSpeechView::Write => event is Written,
        CachedSpeechView::Over => false,
    }
}

/// What an utterance does upon an event that it waits for.
pub open spec fn speech_turn(speech: CachedSpeechView, event: SpeechEvent) -> SpeechTurn {
    match (speech, event) {
        (
            CachedSpeechView::LookUp { path, text, codes, ref_text },
            SpeechEvent::LookedUp { cached },
        ) => if cached {
            (CachedSpeechView::Over, SpeechActionView::PlayCached { path })
        } else {
            (
                CachedSpeechView::Synthesis { path, text },
                SpeechActionView::Synthesise { text, codes, ref_text },
            )
        },
        (
            CachedSpeechView::Synthesis { path, text },
            SpeechEvent::Synthesised { outcome },
        ) => match neutts_outcome(quoted(text), outcome) {
            Ok(_) => (CachedSpeechView::Write, SpeechActionView::Write { path }),
            Err(error) => (CachedSpeechView::Over, SpeechActionView::Fail { error }),
        },
        (CachedSpeechView::Write, SpeechEvent::Written) => (
            CachedSpeechView::Over,
            SpeechActionView::Play { sample_rate: 24000 },
        ),
        (_, _) => arbitrary(),
    }
}

/// Opens an utterance of `text` by the model of `backbone`, from `gguf_file` where
/// one was asked for, in the voice with the given reference.
pub fn neutts_speak_cached(
    state: &TtsState,
    text: String,
    codes: Vec<i32>,
    ref_text: String,
    backbone: &str,
    gguf_file: &Option<String>,
    voice_key: &str,
) -> (turn: (CachedSpeech, SpeechAction))
    ensures
        (turn.0@, turn.1@) == speech_start(
            state@,
            text@,
            codes@,
            ref_text@,
            backbone@,
            opt_text(*gguf_file),
            voice_key@,
        ),
{
    let path = wav_cache_path(state, backbone, gguf_file, voice_key, text.as_str());
    (
        CachedSpeech::LookUp { path: path.clone(), text, codes, ref_text },
        SpeechAction::LookUp { path },
    )
}

impl CachedSpeech {
    /// Decides upon the outcome of the last action what to do next.
    pub fn step(self, event: SpeechEvent) -> (turn: (CachedSpeech, SpeechAction))
        requires
            speech_expects(self@, event),
        ensures
            (turn.0@, turn.1@) == speech_turn(self@, event),
    {
        match (self, event) {
            (
                CachedSpeech::LookUp { path, text, codes, ref_text },
                SpeechEvent::LookedUp { cached },
            ) => if cached {
                (CachedSpeech::Over, SpeechAction::PlayCached { path })
            } else {
                (
                    CachedSpeech::Synthesis { path, text: text.clone() },
                    SpeechAction::Synthesise { text, codes, ref_text },
                )
            },
            (
                CachedSpeech::Synthesis { path, text },
                SpeechEvent::Synthesised { outcome },
            ) => match neutts_synthesize(text.as_str(), outcome) {
                Ok(_) => (CachedSpeech::Write, SpeechAction::Write { path }),
                Err(error) => (CachedSpeech::Over, SpeechAction::Fail { error }),
            },
            (CachedSpeech::Write, SpeechEvent::Written) => (
                CachedSpeech::Over,
                SpeechAction::Play { sample_rate: neutts_sample_rate() },
            ),
            (_, _) => vstd::pervasive::unreached(),
        }
    }
}

/// Whether a synthesis yielded samples.
pub open spec fn has_audio(outcome: Result<usize, String>) -> bool {
    match outcome {
        Ok(samples) => samples > 0,
        Err(_) => false,
    }
}

/// The course of an utterance: cached audio is played and nothing synthesised;
/// fresh audio is written to the very path that was looked up, and is played
/// only once it was written; a failed synthesis neither writes nor plays.
pub proof fn written_before_played(
    state: TtsStateView,
    text: Seq<char>,
    codes: Seq<i32>,
    ref_text: Seq<char>,
    backbone: Seq<char>,
    gguf_file: Option<Seq<char>>,
    voice_key: Seq<char>,
    outcome: Result<usize, String>,
)
    ensures
        ({
            let path = wav_path(state, backbone, gguf_file, voice_key, text);
            let start = speech_start(
                state,
                text,
                codes,
                ref_text,
                backbone,
                gguf_file,
                voice_key,
            );
            let hit = speech_turn(start.0, SpeechEvent::LookedUp { cached: true });
            let miss = speech_turn(start.0, SpeechEvent::LookedUp { cached: false });
            let judged = speech_turn(miss.0, SpeechEvent::Synthesised { outcome });
            &&& start.1 == (SpeechActionView::LookUp { path })
            &&& hit == (CachedSpeechView::Over, SpeechActionView::PlayCached { path })
            &&& miss.1 == (SpeechActionView::Synthesise { text, codes, ref_text })
            &&& has_audio(outcome) ==> {
                &&& judged == (CachedSpeechView::Write, SpeechActionView::Write { path })
                &&& speech_turn(judged.0, SpeechEvent::Written) == (
                    CachedSpeechView::Over,
                    SpeechActionView::Play { sample_rate: 24000 },
                )
            }
            &&& !has_audio(outcome) ==> judged.0 is Over && judged.1 is Fail
        }),
{
}

/// KittenTTS plays exactly the audio that has samples, is silent about audio
/// without, and tells an error with the text that it was to say.
pub proof fn kitten_plays_what_has_samples(
    quotation: Seq<char>,
    samples: usize,
    error: String,
)
    ensures
        kitten_outcome(quotation, Ok(samples)) is Ok,
        kitten_outcome(quotation, Ok(samples))->Ok_0 <==> samples > 0,
        kitten_outcome(quotation, Err(error)) == Err::<bool, Seq<char>>(
            "synthesis failed for "@ + quotation + ": "@ + error@,
        ),
{
}

/// NeuTTS takes audio with samples; audio without is an error, and so is a failed
/// synthesis, each told with the text that it was to say.
pub proof fn neutts_takes_what_has_samples(
    quotation: Seq<char>,
    samples: usize,
    error: String,
)
    ensures
        neutts_outcome(quotation, Ok(samples)) is Ok <==> samples > 0,
        samples == 0 ==> neutts_outcome(quotation, Ok(samples)) == Err::<(), Seq<char>>(
            "synthesis returned no samples for "@ + quotation,
        ),
        neutts_outcome(quotation, Err(error)) == Err::<(), Seq<char>>(
            "neutts synthesis failed for "@ + quotation + ": "@ + error@,
        ),
{
}

/// A failed synthesis ends the utterance with an error that quotes its text.
pub proof fn failed_synthesis_is_told(path: Seq<char>, text: Seq<char>, error: String)
    ensures
        ({
            let waiting = CachedSpeechView::Synthesis { path, text };
            let silent = speech_turn(waiting, SpeechEvent::Synthesised { outcome: Ok(0) });
            let broken = speech_turn(waiting, SpeechEvent::Synthesised { outcome: Err(error) });
            &&& silent.0 is Over && broken.0 is Over
            &&& silent.1 == (SpeechActionView::Fail {
                error: "synthesis returned no samples for "@ + quoted(text),
            })
            &&& broken.1 == (SpeechActionView::Fail {
                error: "neutts synthesis failed for "@ + quoted(text) + ": "@ + error@,
            })
        }),
{
}

/// An utterance is looked up, and written, under the name that its model, voice
/// and text have in the cache.
pub proof fn utterance_is_cached_under_its_name(
    state: TtsStateView,
    u: Utterance,
    codes: Seq<i32>,
    ref_text: Seq<char>,
    samples: usize,
)
    requires
        samples > 0,
    ensures
        ({
            let start = speech_start(
                state,
                u.text,
                codes,
                ref_text,
                u.backbone_repo,
                u.gguf_file,
                u.voice_key,
            );
            let miss = speech_turn(start.0, SpeechEvent::LookedUp { cached: false });
            let done = speech_turn(miss.0, SpeechEvent::Synthesised { outcome: Ok(samples) });
            &&& start.1 == (SpeechActionView::LookUp { path: u.path(state) })
            &&& done.1 == (SpeechActionView::Write { path: u.path(state) })
        }),
{
}

/// The views of an utterance and its actions show every part as it is.
pub proof fn speech_is_seen_in_full(
    a: String,
    b: String,
    c: String,
    codes: Vec<i32>,
    sample_rate: u32,
    result: Result<bool, String>,
)
    ensures
        (CachedSpeech::LookUp { path: a, text: b, codes, ref_text: c })@ == (
        CachedSpeechView::LookUp { path: a@, text: b@, codes: codes@, ref_text: c@ }),
        (CachedSpeech::Synthesis { path: a, text: b })@ == (CachedSpeechView::Synthesis {
            path: a@,
            text: b@,
        }),
        (SpeechAction::LookUp { path: a })@ == (SpeechActionView::LookUp { path: a@ }),
        (SpeechAction::PlayCached { path: a })@ == (SpeechActionView::PlayCached { path: a@ }),
        (SpeechAction::Synthesise { text: a, codes, ref_text: b })@ == (
        SpeechActionView::Synthesise { text: a@, codes: codes@, ref_text: b@ }),
        (SpeechAction::Write { path: a })@ == (SpeechActionView::Write { path: a@ }),
        (SpeechAction::Play { sample_rate })@ == (SpeechActionView::Play { sample_rate }),
        (SpeechAction::Fail { error: a })@ == (SpeechActionView::Fail { error: a@ }),
        result is Ok ==> error_view(result) == Ok::<bool, Seq<char>>(result->Ok_0),
        result is Err ==> error_view(result) == Err::<bool, Seq<char>>(result->Err_0@),
{
}

/// Every outcome of an action can be handed to the utterance, from the first on.
pub proof fn speech_takes_every_outcome(
    speech: CachedSpeechView,
    event: SpeechEvent,
    cached: bool,
    outcome: Result<usize, String>,
)
    requires
        speech_expects(speech, event),
    ensures
        ({
            let (next, action) = speech_turn(speech, event);
            match action {
                SpeechActionView::LookUp { .. } => false,
                SpeechActionView::Synthesise { .. } => speech_expects(
                    next,
                    SpeechEvent::Synthesised { outcome },
                ),
                SpeechActionView::Write { .. } => speech_expects(next, SpeechEvent::Written),
                _ => next is Over,
            }
        }),
        speech is LookUp ==> speech_expects(speech, SpeechEvent::LookedUp { cached }),
{
}

} // verus!
