//! The commands of the service: which engine serves a request, with what, and
//! what the user hears of it.

use vstd::prelude::*;
use vstd::string::*;

use crate::kitten_worker::{
    keep_voices, kitten_expects, kitten_in_step, kitten_ready, kitten_run, kitten_turn,
    with_voices, KittenActionView, KittenEventView, KittenWorkerView, TtsCmd, TtsCmdView, HF_REPO,
};
use crate::neutts_worker::{
    neutts_expects, neutts_in_step, neutts_turn, NeuttsActionView, NeuttsCmd, NeuttsCmdView,
    NeuttsEventView, NeuttsWorkerView,
};
use crate::progress::{ready_event, unloaded_event, TtsProgressEvent, TtsProgressEventView};
use crate::state::{
    clone_texts, get_voice, neutts_active, opt_text, opt_texts, runtime_cfg, set_voice_inner,
    texts, use_neutts, with_config, NeuttsConfig, TtsState, TtsStateView, VOICE_DEFAULT,
};

verus! {

/// A speech engine.
#[derive(Clone, Copy, Debug, PartialEq, Eq, Structural)]
pub enum Engine {
    Kitten,
    Neutts,
}

/// The engine that serves requests, if there is one.
pub open spec fn active_engine(state: TtsStateView) -> Option<Engine> {
    if neutts_active(state) {
        Some(Engine::Neutts)
    } else if state.backends.kitten {
        Some(Engine::Kitten)
    } else {
        None
    }
}

/// Finds the engine that serves requests.
pub fn serving_engine(state: &TtsState) -> (engine: Option<Engine>)
    ensures
        engine == active_engine(state@),
{
    if use_neutts(state) {
        Some(Engine::Neutts)
    } else if state.backends.kitten {
        Some(Engine::Kitten)
    } else {
        None
    }
}

/// What a request makes the service do.
#[derive(Debug, PartialEq, Eq)]
pub enum Request {
    /// Nothing.
    Nothing,
    /// Tell the user at once.
    Emit { event: TtsProgressEvent },
    /// Hand a command to the KittenTTS worker.
    Kitten { cmd: TtsCmd },
    /// Hand a command to the NeuTTS worker.
    Neutts { cmd: NeuttsCmd },
}

/// A [`Request`] as mathematical text.
#[verifier::ext_equal]
pub enum RequestView {
    Nothing,
    Emit { event: TtsProgressEventView },
    Kitten { cmd: TtsCmdView },
    Neutts { cmd: NeuttsCmdView },
}

impl View for Request {
    type V = RequestView;

    open spec fn view(&self) -> RequestView {
        match *self {
            Request::Nothing => RequestView::Nothing,
            Request::Emit { event } => RequestView::Emit { event: event@ },
            Request::Kitten { cmd } => RequestView::Kitten { cmd: cmd@ },
            Request::Neutts { cmd } => RequestView::Neutts { cmd: cmd@ },
        }
    }
}

/// What initialising does: an engine that is ready says so, one that is loading
/// is left alone, and any other loads.
pub open spec fn init_request(state: TtsStateView) -> RequestView {
    match active_engine(state) {
        Some(Engine::Neutts) => if state.neutts_ready {
            RequestView::Emit { event: ready_event() }
        } else if state.neutts_loading {
            RequestView::Nothing
        } else {
            RequestView::Neutts { cmd: NeuttsCmdView::Init { cfg: state.neutts_cfg } }
        },
        Some(Engine::Kitten) => if state.kitten_loaded {
            RequestView::Emit { event: ready_event() }
        } else {
            RequestView::Kitten { cmd: TtsCmdView::Init }
        },
        None => RequestView::Nothing,
    }
}

/// Loads the serving engine, if it is not ready.
pub fn tts_init(state: &TtsState) -> (request: Request)
    ensures
        request@ == init_request(state@),
{
    match serving_engine(state) {
        Some(Engine::Neutts) => {
            if state.neutts_ready {
                Request::Emit { event: TtsProgressEvent::ready() }
            } else if state.neutts_loading {
                Request::Nothing
            } else {
                Request::Neutts { cmd: NeuttsCmd::Init { cfg: state.neutts_cfg.clone() } }
            }
        },
        Some(Engine::Kitten) => {
            if state.kitten_loaded {
                Request::Emit { event: TtsProgressEvent::ready() }
            } else {
                Request::Kitten { cmd: TtsCmd::Init }
            }
        },
        None => Request::Nothing,
    }
}

/// What the user hears of the worker's answer to an initialisation: that the
/// engine is ready, where it is. There is no answer from a worker that died.
pub fn init_answered(answer: &Option<Result<(), String>>) -> (event: Option<TtsProgressEvent>)
    ensures
        event is Some <==> (answer is Some && answer->0 is Ok),
        event is Some ==> event->0@ == ready_event(),
        event is Some ==> event->0@.phase == "ready"@,
{
    match answer {
        Some(Ok(_)) => Some(TtsProgressEvent::ready()),
        _ => None,
    }
}

/// What unloading does.
pub open spec fn unload_request(state: TtsStateView) -> RequestView {
    match active_engine(state) {
        Some(Engine::Neutts) => RequestView::Neutts { cmd: NeuttsCmdView::Unload },
        Some(Engine::Kitten) => RequestView::Kitten { cmd: TtsCmdView::Unload },
        None => RequestView::Nothing,
    }
}

/// Drops the model of the serving engine. Once that is done, and also where
/// there is no engine, the user is told so.
pub fn tts_unload(state: &TtsState) -> (plan: (Request, TtsProgressEvent))
    ensures
        plan.0@ == unload_request(state@),
        plan.1@ == unloaded_event(),
{
    let request = match serving_engine(state) {
        Some(Engine::Neutts) => Request::Neutts { cmd: NeuttsCmd::Unload },
        Some(Engine::Kitten) => Request::Kitten { cmd: TtsCmd::Unload },
        None => Request::Nothing,
    };
    (request, TtsProgressEvent::unloaded())
}

/// The voice that a request names. The empty text names none.
pub open spec fn named_voice(voice: Option<Seq<char>>) -> Option<Seq<char>> {
    match voice {
        Some(name) => if name.len() > 0 {
            Some(name)
        } else {
            None
        },
        None => None,
    }
}

/// What speaking does. NeuTTS takes a named voice for this utterance only;
/// KittenTTS falls back to the active voice.
pub open spec fn speak_request(
    state: TtsStateView,
    text: Seq<char>,
    voice: Option<Seq<char>>,
) -> RequestView {
    match active_engine(state) {
        Some(Engine::Neutts) => RequestView::Neutts {
            cmd: NeuttsCmdView::Speak { text, voice_override: named_voice(voice) },
        },
        Some(Engine::Kitten) => RequestView::Kitten {
            cmd: TtsCmdView::Speak {
                text,
                voice: match named_voice(voice) {
                    Some(name) => name,
                    None => state.active_voice,
                },
            },
        },
        None => RequestView::Nothing,
    }
}

/// Takes the voice that a request names.
fn take_named(voice: Option<String>) -> (named: Option<String>)
    ensures
        opt_text(named) == named_voice(opt_text(voice)),
{
    match voice {
        Some(name) => if name.as_str().is_empty() {
            None
        } else {
            Some(name)
        },
        None => None,
    }
}

/// Says `text`, in `voice` if one is named.
pub fn tts_speak(state: &TtsState, text: String, voice: Option<String>) -> (request: Request)
    ensures
        request@ == speak_request(state@, text@, opt_text(voice)),
{
    let named = take_named(voice);
    match serving_engine(state) {
        Some(Engine::Neutts) => Request::Neutts {
            cmd: NeuttsCmd::Speak { text, voice_override: named },
        },
        Some(Engine::Kitten) => {
            let voice = match named {
                Some(name) => name,
                None => get_voice(state),
            };
            Request::Kitten { cmd: TtsCmd::Speak { text, voice } }
        },
        None => Request::Nothing,
    }
}

/// How the KittenTTS voices are had.
#[derive(Debug, PartialEq, Eq)]
pub enum VoiceList {
    Known { voices: Vec<String> },
    /// Ask for the voices of the model in `repo`, then call [`voices_listed`].
    Ask { repo: String },
}

/// A [`VoiceList`] as mathematical text.
#[verifier::ext_equal]
pub enum VoiceListView {
    Known { voices: Seq<Seq<char>> },
    Ask { repo: Seq<char> },
}

impl View for VoiceList {
    type V = VoiceListView;

    open spec fn view(&self) -> VoiceListView {
        match *self {
            VoiceList::Known { voices } => VoiceListView::Known { voices: texts(voices@) },
            VoiceList::Ask { repo } => VoiceListView::Ask { repo: repo@ },
        }
    }
}

/// A list of the default voice alone.
pub open spec fn default_voices() -> Seq<Seq<char>> {
    seq![VOICE_DEFAULT@]
}

/// How the KittenTTS voices are had in a given state.
pub open spec fn voice_list(state: TtsStateView) -> VoiceListView {
    if state.backends.kitten {
        match state.voices {
            Some(voices) => VoiceListView::Known { voices },
            None => VoiceListView::Ask { repo: HF_REPO@ },
        }
    } else {
        VoiceListView::Known { voices: default_voices() }
    }
}

/// Builds a list of the default voice alone.
fn only_default() -> (voices: Vec<String>)
    ensures
        texts(voices@) == default_voices(),
{
    let mut voices: Vec<String> = Vec::new();
    voices.push(VOICE_DEFAULT.to_owned());
    assert(texts(voices@) =~= default_voices());
    voices
}

/// Lists the KittenTTS voices: the default voice alone where KittenTTS is
/// missing.
pub fn tts_list_voices(state: &TtsState) -> (list: VoiceList)
    ensures
        list@ == voice_list(state@),
{
    if state.backends.kitten {
        match &state.voices {
            Some(voices) => VoiceList::Known { voices: clone_texts(voices) },
            None => VoiceList::Ask { repo: HF_REPO.to_owned() },
        }
    } else {
        VoiceList::Known { voices: only_default() }
    }
}

/// The voices that an answer stands for: the default voice where there is none.
pub open spec fn listed(answer: Option<Seq<Seq<char>>>) -> Seq<Seq<char>> {
    match answer {
        Some(voices) => voices,
        None => default_voices(),
    }
}

/// The state once the voices were asked for: an answer is kept, its absence is
/// not.
pub open spec fn after_listing(
    state: TtsStateView,
    answer: Option<Seq<Seq<char>>>,
) -> TtsStateView {
    match answer {
        Some(voices) => with_voices(state, voices),
        None => state,
    }
}

/// Takes the voices that were asked for and keeps them. Where asking failed, the
/// default voice is offered for now and nothing is kept.
pub fn voices_listed(state: &mut TtsState, answer: Option<Vec<String>>) -> (voices: Vec<String>)
    ensures
        texts(voices@) == listed(opt_texts(answer)),
        final(state)@ == after_listing(old(state)@, opt_texts(answer)),
{
    match answer {
        Some(voices) => {
            keep_voices(state, clone_texts(&voices));
            voices
        },
        None => only_default(),
    }
}

/// The active KittenTTS voice in a given state: the default voice where
/// KittenTTS is missing.
pub open spec fn current_voice(state: TtsStateView) -> Seq<char> {
    if state.backends.kitten {
        state.active_voice
    } else {
        VOICE_DEFAULT@
    }
}

/// The active KittenTTS voice.
pub fn tts_get_voice(state: &TtsState) -> (voice: String)
    ensures
        voice@ == current_voice(state@),
{
    if state.backends.kitten {
        get_voice(state)
    } else {
        VOICE_DEFAULT.to_owned()
    }
}

/// The state once `voice` was made the active KittenTTS voice. Where KittenTTS
/// is missing nothing changes.
pub open spec fn with_voice(state: TtsStateView, voice: Seq<char>) -> TtsStateView {
    if state.backends.kitten {
        TtsStateView { active_voice: voice, ..state }
    } else {
        state
    }
}

/// Makes `voice` the KittenTTS voice of requests that name none.
pub fn tts_set_voice(state: &mut TtsState, voice: String)
    ensures
        final(state)@ == with_voice(old(state)@, voice@),
{
    if state.backends.kitten {
        set_voice_inner(state, voice);
    }
}

/// The voice that was set is the one that is read back, and the one that speaks
/// where a request to KittenTTS names none; a named voice speaks itself.
pub proof fn set_voice_speaks(
    state: TtsStateView,
    voice: Seq<char>,
    text: Seq<char>,
    named: Seq<char>,
)
    requires
        state.backends.kitten,
    ensures
        current_voice(with_voice(state, voice)) == voice,
        !neutts_active(state) ==> {
            let after = with_voice(state, voice);
            &&& speak_request(after, text, None) == (RequestView::Kitten {
                cmd: TtsCmdView::Speak { text, voice },
            })
            &&& speak_request(after, text, Some(Seq::empty())) == speak_request(after, text, None)
            &&& named.len() > 0 ==> speak_request(after, text, Some(named)) == (
            RequestView::Kitten { cmd: TtsCmdView::Speak { text, voice: named } })
        },
{
}

/// With one engine in the build that engine serves, whatever the settings; with
/// both, the settings decide; with none, no request reaches a worker.
pub proof fn settings_choose_engine(state: TtsStateView, cfg: NeuttsConfig)
    ensures
        ({
            let after = with_config(state, cfg);
            &&& state.backends.neutts && !state.backends.kitten ==> active_engine(after) == Some(
                Engine::Neutts,
            )
            &&& !state.backends.neutts && state.backends.kitten ==> active_engine(after) == Some(
                Engine::Kitten,
            )
            &&& state.backends.neutts && state.backends.kitten ==> active_engine(after) == Some(
                if cfg.enabled {
                    Engine::Neutts
                } else {
                    Engine::Kitten
                },
            )
            &&& !state.backends.neutts && !state.backends.kitten ==> active_engine(after) is None
        }),
{
}

/// A request reaches the serving engine and no other.
pub proof fn requests_reach_serving_engine(
    state: TtsStateView,
    text: Seq<char>,
    voice: Option<Seq<char>>,
)
    ensures
        ({
            let requests = (
                init_request(state),
                unload_request(state),
                speak_request(state, text, voice),
            );
            let engine = active_engine(state);
            &&& requests.0 is Neutts || requests.1 is Neutts || requests.2 is Neutts ==> engine
                == Some(Engine::Neutts)
            &&& requests.0 is Kitten || requests.1 is Kitten || requests.2 is Kitten ==> engine
                == Some(Engine::Kitten)
            &&& engine is Some ==> !(requests.1 is Nothing) && !(requests.2 is Nothing)
        }),
{
}

/// An engine that is ready answers an initialisation at once. New settings that
/// enable NeuTTS make the next initialisation load their model, unless a load
/// is under way.
pub proof fn settings_reinitialise(state: TtsStateView, cfg: NeuttsConfig)
    requires
        state.backends.neutts,
        cfg.enabled,
        !state.neutts_loading,
    ensures
        init_request(with_config(state, cfg)) == (RequestView::Neutts {
            cmd: NeuttsCmdView::Init { cfg: runtime_cfg(cfg) },
        }),
        neutts_active(state) && state.neutts_ready ==> init_request(state) == (RequestView::Emit {
            event: ready_event(),
        }),
{
}

/// Once the voices are known, because a model was loaded or because asking for
/// them succeeded, they are listed without asking, and stay the same.
pub proof fn known_voices_are_listed(
    state: TtsStateView,
    voices: Seq<Seq<char>>,
    later: Seq<Seq<char>>,
)
    requires
        state.backends.kitten,
        state.voices is None,
    ensures
        voice_list(state) is Ask,
        voice_list(kitten_ready(state, voices)) == (VoiceListView::Known { voices }),
        voice_list(after_listing(state, Some(voices))) == (VoiceListView::Known { voices }),
        voice_list(after_listing(after_listing(state, Some(voices)), Some(later))) == (
        VoiceListView::Known { voices }),
        voice_list(kitten_ready(after_listing(state, Some(voices)), later)) == (
        VoiceListView::Known { voices }),
{
}

/// A failed listing hides nothing: the voices are asked for again, and once a
/// model is loaded, because the worker was told to or because it has to speak,
/// the voices of that model are the ones listed.
pub proof fn failed_listing_hides_nothing(
    state: TtsStateView,
    worker: KittenWorkerView,
    voices: Seq<Seq<char>>,
)
    requires
        state.backends.kitten,
        state.voices is None,
        worker.job is InitLoad || worker.job is SpeakLoad,
    ensures
        ({
            let failed = after_listing(state, None);
            let loaded = kitten_turn(failed, worker, KittenEventView::Loaded { voices }).state;
            &&& failed == state
            &&& voice_list(failed) is Ask
            &&& voice_list(loaded) == (VoiceListView::Known { voices })
        }),
{
}

/// An engine that has answered an initialisation with success answers the next
/// one at once.
pub proof fn initialised_engine_is_ready(
    state: TtsStateView,
    kitten: KittenWorkerView,
    kitten_event: KittenEventView,
    neutts: NeuttsWorkerView,
    neutts_event: NeuttsEventView,
)
    requires
        kitten_in_step(state, kitten),
        kitten_expects(kitten.job, kitten_event),
        neutts_in_step(state, neutts),
        neutts_expects(neutts.job, neutts_event),
    ensures
        ({
            let turn = kitten_turn(state, kitten, kitten_event);
            active_engine(state) == Some(Engine::Kitten) && turn.action == (
            KittenActionView::ReplyInit { result: Ok(()) }) ==> init_request(turn.state) == (
            RequestView::Emit { event: ready_event() })
        }),
        ({
            let turn = neutts_turn(state, neutts, neutts_event);
            active_engine(state) == Some(Engine::Neutts) && turn.action == (
            NeuttsActionView::ReplyInit { result: Ok(()) }) ==> init_request(turn.state) == (
            RequestView::Emit { event: ready_event() })
        }),
{
}

/// An engine that was unloaded is not ready: the next initialisation hands its
/// worker a command upon which the worker loads a model.
pub proof fn unloaded_engine_loads_again(
    state: TtsStateView,
    kitten: KittenWorkerView,
    neutts: NeuttsWorkerView,
)
    requires
        kitten.job is Idle,
        neutts.job is Idle,
    ensures
        active_engine(state) == Some(Engine::Kitten) ==> {
            let unload = KittenEventView::Command { cmd: TtsCmdView::Unload };
            let unloaded = kitten_turn(state, kitten, unload);
            let init = init_request(unloaded.state);
            &&& unload_request(state) == (RequestView::Kitten { cmd: TtsCmdView::Unload })
            &&& init is Kitten
            &&& kitten_turn(
                unloaded.state,
                unloaded.worker,
                KittenEventView::Command { cmd: init->Kitten_cmd },
            ).action is Load
        },
        active_engine(state) == Some(Engine::Neutts) ==> {
            let unload = NeuttsEventView::Command { cmd: NeuttsCmdView::Unload };
            let unloaded = neutts_turn(state, neutts, unload);
            let init = init_request(unloaded.state);
            &&& unload_request(state) == (RequestView::Neutts { cmd: NeuttsCmdView::Unload })
            &&& init is Neutts
            &&& neutts_turn(
                unloaded.state,
                unloaded.worker,
                NeuttsEventView::Command { cmd: init->Neutts_cmd },
            ).action is Load
        },
{
}

/// The engines do not get in each other's way: whatever happens to one worker,
/// the other worker still agrees with the shared state, and neither worker
/// changes which engine serves, the settings, the active voice or the data
/// directory.
pub proof fn engines_keep_apart(
    state: TtsStateView,
    kitten: KittenWorkerView,
    kitten_event: KittenEventView,
    neutts: NeuttsWorkerView,
    neutts_event: NeuttsEventView,
)
    requires
        kitten_expects(kitten.job, kitten_event),
        neutts_expects(neutts.job, neutts_event),
    ensures
        ({
            let after = kitten_turn(state, kitten, kitten_event).state;
            &&& neutts_in_step(state, neutts) ==> neutts_in_step(after, neutts)
            &&& after == (TtsStateView {
                voices: after.voices,
                kitten_loaded: after.kitten_loaded,
                ..state
            })
        }),
        ({
            let after = neutts_turn(state, neutts, neutts_event).state;
            &&& kitten_in_step(state, kitten) ==> kitten_in_step(after, kitten)
            &&& after == (TtsStateView {
                neutts_loading: after.neutts_loading,
                neutts_ready: after.neutts_ready,
                ..state
            })
        }),
{
}

/// Whether NeuTTS serves a request.
pub open spec fn neutts_serves(state: TtsStateView) -> bool {
    state.backends.neutts && (!state.backends.kitten || state.neutts_enabled)
}

/// Whether KittenTTS serves a request.
pub open spec fn kitten_serves(state: TtsStateView) -> bool {
    state.backends.kitten && (!state.backends.neutts || !state.neutts_enabled)
}

/// A request to speak hands the serving engine its text, and the voice that it
/// names. Without one, or with the empty name, NeuTTS is handed none and KittenTTS
/// the active voice. Without an engine nothing is done.
pub proof fn speaking_hands_on_words_and_voice(
    state: TtsStateView,
    text: Seq<char>,
    voice: Seq<char>,
)
    ensures
        ({
            let named = speak_request(state, text, Some(voice));
            let unnamed = speak_request(state, text, None);
            let empty = speak_request(state, text, Some(Seq::empty()));
            &&& empty == unnamed
            &&& neutts_serves(state) ==> {
                &&& voice.len() > 0 ==> named == (RequestView::Neutts {
                    cmd: NeuttsCmdView::Speak { text, voice_override: Some(voice) },
                })
                &&& unnamed == (RequestView::Neutts {
                    cmd: NeuttsCmdView::Speak { text, voice_override: None },
                })
            }
            &&& kitten_serves(state) ==> {
                &&& voice.len() > 0 ==> named == (RequestView::Kitten {
                    cmd: TtsCmdView::Speak { text, voice },
                })
                &&& unnamed == (RequestView::Kitten {
                    cmd: TtsCmdView::Speak { text, voice: state.active_voice },
                })
            }
            &&& !neutts_serves(state) && !kitten_serves(state) ==> named is Nothing
                && unnamed is Nothing
        }),
{
}

/// A request to initialise is answered with `ready` where the serving engine is;
/// it is passed over while NeuTTS is loading; otherwise the serving engine is told
/// to load, NeuTTS with the settings in force. A request to unload goes to the
/// serving engine, and is always followed by `unloaded`.
pub proof fn init_and_unload_reach_the_engine(state: TtsStateView)
    ensures
        ({
            let none = Seq::<char>::empty();
            let ready = RequestView::Emit {
                event: TtsProgressEventView { phase: "ready"@, step: 0, total: 0, label: none },
            };
            let init = init_request(state);
            let unload = unload_request(state);
            &&& neutts_serves(state) ==> {
                &&& state.neutts_ready ==> init == ready
                &&& !state.neutts_ready && state.neutts_loading ==> init is Nothing
                &&& !state.neutts_ready && !state.neutts_loading ==> init == (
                RequestView::Neutts { cmd: NeuttsCmdView::Init { cfg: state.neutts_cfg } })
                &&& unload == (RequestView::Neutts { cmd: NeuttsCmdView::Unload })
            }
            &&& kitten_serves(state) ==> {
                &&& state.kitten_loaded ==> init == ready
                &&& !state.kitten_loaded ==> init == (RequestView::Kitten {
                    cmd: TtsCmdView::Init,
                })
                &&& unload == (RequestView::Kitten { cmd: TtsCmdView::Unload })
            }
            &&& !neutts_serves(state) && !kitten_serves(state) ==> init is Nothing
                && unload is Nothing
            &&& unloaded_event() == (TtsProgressEventView {
                phase: "unloaded"@,
                step: 0,
                total: 0,
                label: none,
            })
        }),
{
}

/// At most one engine serves, and one does wherever there is one.
pub proof fn one_engine_serves(state: TtsStateView)
    ensures
        active_engine(state) == Some(Engine::Neutts) <==> neutts_serves(state),
        active_engine(state) == Some(Engine::Kitten) <==> kitten_serves(state),
        !(neutts_serves(state) && kitten_serves(state)),
        neutts_serves(state) || kitten_serves(state) <==> state.backends.neutts
            || state.backends.kitten,
        neutts_serves(state) == neutts_active(state),
{
}

/// The voices that are known are listed in full; unknown ones are asked for at the
/// KittenTTS model; where asking fails, or KittenTTS is missing, it is Jasper
/// alone. An answer is listed in full and kept unless a list is known; no answer
/// keeps nothing.
pub proof fn voices_are_listed_in_full(state: TtsStateView, voices: Seq<Seq<char>>)
    ensures
        state.backends.kitten && state.voices is Some ==> voice_list(state) == (
        VoiceListView::Known { voices: state.voices->0 }),
        state.backends.kitten && state.voices is None ==> voice_list(state) == (
        VoiceListView::Ask { repo: "KittenML/kitten-tts-mini-0.8"@ }),
        !state.backends.kitten ==> voice_list(state) == (VoiceListView::Known {
            voices: seq!["Jasper"@],
        }),
        listed(Some(voices)) == voices,
        listed(None) == seq!["Jasper"@],
        after_listing(state, None) == state,
        state.voices is None ==> after_listing(state, Some(voices)) == (TtsStateView {
            voices: Some(voices),
            ..state
        }),
        state.voices is Some ==> after_listing(state, Some(voices)) == state,
{
}

/// The active voice can be set only where KittenTTS is there; elsewhere it is
/// Jasper and stays so. Setting it changes nothing else.
pub proof fn voice_is_set_where_it_speaks(state: TtsStateView, voice: Seq<char>)
    ensures
        state.backends.kitten ==> with_voice(state, voice) == (TtsStateView {
            active_voice: voice,
            ..state
        }),
        state.backends.kitten ==> current_voice(state) == state.active_voice,
        !state.backends.kitten ==> with_voice(state, voice) == state,
        !state.backends.kitten ==> current_voice(state) == "Jasper"@,
{
}

/// From a request to speech: the text of a request to KittenTTS is what its worker
/// speaks, in the voice that the request names, or else in the voice that was set,
/// whatever has to be loaded or opened first.
pub proof fn kitten_request_is_spoken(
    state: TtsStateView,
    worker: KittenWorkerView,
    text: Seq<char>,
    voice: Option<Seq<char>>,
    voices: Seq<Seq<char>>,
)
    requires
        kitten_serves(state),
        worker.job is Idle,
    ensures
        ({
            let request = speak_request(state, text, voice);
            let start = kitten_turn(
                state,
                worker,
                KittenEventView::Command { cmd: request->Kitten_cmd },
            );
            let said = kitten_run(start, voices, 2);
            &&& request is Kitten
            &&& said.action is Speak
            &&& said.action->text == text
            &&& voice is Some && voice->0.len() > 0 ==> said.action->voice == voice->0
            &&& voice is None || voice->0.len() == 0 ==> said.action->voice == state.active_voice
        }),
{
    reveal_with_fuel(kitten_run, 3);
}

/// The views of requests and lists show every part as it is.
pub proof fn requests_are_seen_in_full(
    event: TtsProgressEvent,
    kitten: TtsCmd,
    neutts: NeuttsCmd,
    voices: Vec<String>,
    repo: String,
)
    ensures
        Request::Nothing@ is Nothing,
        (Request::Emit { event })@ == (RequestView::Emit { event: event@ }),
        (Request::Kitten { cmd: kitten })@ == (RequestView::Kitten { cmd: kitten@ }),
        (Request::Neutts { cmd: neutts })@ == (RequestView::Neutts { cmd: neutts@ }),
        (VoiceList::Known { voices })@ == (VoiceListView::Known { voices: texts(voices@) }),
        (VoiceList::Ask { repo })@ == (VoiceListView::Ask { repo: repo@ }),
{
}

} // verus!
