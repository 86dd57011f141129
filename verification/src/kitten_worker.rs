//! The KittenTTS worker: one model, one audio device, one command at a time.
//!
//! [`KittenWorker::step`] takes a command, or the outcome of the last action,
//! and names the next action.

use vstd::prelude::*;
use vstd::string::*;

use crate::state::{initial_state, texts, Backends, TtsState, TtsStateView};

verus! {

/// The repository of the KittenTTS model.
pub const HF_REPO: &'static str = "KittenML/kitten-tts-mini-0.8";

/// A command to the worker.
#[derive(Debug, PartialEq, Eq)]
pub enum TtsCmd {
    /// Load the model.
    Init,
    /// Say `text` in `voice`.
    Speak { text: String, voice: String },
    /// Drop the model.
    Unload,
}

/// A [`TtsCmd`] as mathematical text.
#[verifier::ext_equal]
pub enum TtsCmdView {
    Init,
    Speak { text: Seq<char>, voice: Seq<char> },
    Unload,
}

impl View for TtsCmd {
    type V = TtsCmdView;

    open spec fn view(&self) -> TtsCmdView {
        match *self {
            TtsCmd::Init => TtsCmdView::Init,
            TtsCmd::Speak { text, voice } => TtsCmdView::Speak { text: text@, voice: voice@ },
            TtsCmd::Unload => TtsCmdView::Unload,
        }
    }
}

/// What the worker is at.
#[derive(Debug, PartialEq, Eq)]
pub enum KittenJob {
    Idle,
    /// Loading the model because it was told to.
    InitLoad,
    /// Loading the model because it has to speak.
    SpeakLoad { text: String, voice: String },
    /// Opening the audio device because it has to speak.
    SpeakOpen { text: String, voice: String },
    Speaking,
}

/// A [`KittenJob`] as mathematical text.
#[verifier::ext_equal]
pub enum KittenJobView {
    Idle,
    InitLoad,
    SpeakLoad { text: Seq<char>, voice: Seq<char> },
    SpeakOpen { text: Seq<char>, voice: Seq<char> },
    Speaking,
}

impl View for KittenJob {
    type V = KittenJobView;

    open spec fn view(&self) -> KittenJobView {
        match *self {
            KittenJob::Idle => KittenJobView::Idle,
            KittenJob::InitLoad => KittenJobView::InitLoad,
            KittenJob::SpeakLoad { text, voice } => KittenJobView::SpeakLoad {
                text: text@,
                voice: voice@,
            },
            KittenJob::SpeakOpen { text, voice } => KittenJobView::SpeakOpen {
                text: text@,
                voice: voice@,
            },
            KittenJob::Speaking => KittenJobView::Speaking,
        }
    }
}

/// The worker: whether it holds a model and an audio device, and what it is at.
#[derive(Debug, PartialEq, Eq)]
pub struct KittenWorker {
    pub model: bool,
    pub stream: bool,
    pub job: KittenJob,
}

/// A [`KittenWorker`] as mathematical text.
#[verifier::ext_equal]
pub struct KittenWorkerView {
    pub model: bool,
    pub stream: bool,
    pub job: KittenJobView,
}

impl View for KittenWorker {
    type V = KittenWorkerView;

    open spec fn view(&self) -> KittenWorkerView {
        KittenWorkerView { model: self.model, stream: self.stream, job: self.job@ }
    }
}

/// A command, or the outcome of an action.
#[derive(Debug, PartialEq, Eq)]
pub enum KittenEvent {
    Command { cmd: TtsCmd },
    Loaded { voices: Vec<String> },
    LoadFailed { error: String },
    /// Whether the audio device could be opened.
    Opened { stream: bool },
    /// Speaking is over, whether it succeeded or not.
    Spoken,
}

/// A [`KittenEvent`] as mathematical text.
#[verifier::ext_equal]
pub enum KittenEventView {
    Command { cmd: TtsCmdView },
    Loaded { voices: Seq<Seq<char>> },
    LoadFailed { error: Seq<char> },
    Opened { stream: bool },
    Spoken,
}

impl View for KittenEvent {
    type V = KittenEventView;

    open spec fn view(&self) -> KittenEventView {
        match *self {
            KittenEvent::Command { cmd } => KittenEventView::Command { cmd: cmd@ },
            KittenEvent::Loaded { voices } => KittenEventView::Loaded { voices: texts(voices@) },
            KittenEvent::LoadFailed { error } => KittenEventView::LoadFailed { error: error@ },
            KittenEvent::Opened { stream } => KittenEventView::Opened { stream },
            KittenEvent::Spoken => KittenEventView::Spoken,
        }
    }
}

/// The work to do next.
#[derive(Debug, PartialEq, Eq)]
pub enum KittenAction {
    /// Load the model in `repo`, reporting progress or not.
    Load { repo: String, report: bool },
    /// Open the audio device.
    OpenAudio,
    /// Synthesise and play.
    Speak { text: String, voice: String },
    /// Answer an `Init`.
    ReplyInit { result: Result<(), String> },
    /// Answer a `Speak`.
    ReplySpoken,
    /// Drop the model and answer an `Unload`.
    ReplyUnloaded,
}

/// A [`KittenAction`] as mathematical text.
#[verifier::ext_equal]
pub enum KittenActionView {
    Load { repo: Seq<char>, report: bool },
    OpenAudio,
    Speak { text: Seq<char>, voice: Seq<char> },
    ReplyInit { result: Result<(), Seq<char>> },
    ReplySpoken,
    ReplyUnloaded,
}

impl View for KittenAction {
    type V = KittenActionView;

    open spec fn view(&self) -> KittenActionView {
        match *self {
            KittenAction::Load { repo, report } => KittenActionView::Load { repo: repo@, report },
            KittenAction::OpenAudio => KittenActionView::OpenAudio,
            KittenAction::Speak { text, voice } => KittenActionView::Speak {
                text: text@,
                voice: voice@,
            },
            KittenAction::ReplyInit { result } => KittenActionView::ReplyInit {
                result: match result {
                    Ok(_) => Ok(()),
                    Err(e) => Err(e@),
                },
            },
            KittenAction::ReplySpoken => KittenActionView::ReplySpoken,
            KittenAction::ReplyUnloaded => KittenActionView::ReplyUnloaded,
        }
    }
}

/// What a decision yields.
#[verifier::ext_equal]
pub struct KittenTurn {
    pub state: TtsStateView,
    pub worker: KittenWorkerView,
    pub action: KittenActionView,
}

/// The shared state once a list of voices became known: the first list stays.
pub open spec fn with_voices(state: TtsStateView, voices: Seq<Seq<char>>) -> TtsStateView {
    TtsStateView {
        voices: if state.voices is Some {
            state.voices
        } else {
            Some(voices)
        },
        ..state
    }
}

/// The shared state once a model with the given voices was loaded.
pub open spec fn kitten_ready(state: TtsStateView, voices: Seq<Seq<char>>) -> TtsStateView {
    TtsStateView { kitten_loaded: true, ..with_voices(state, voices) }
}

/// Speaks, or gives up where model or audio device are missing.
pub open spec fn kitten_say(
    state: TtsStateView,
    worker: KittenWorkerView,
    text: Seq<char>,
    voice: Seq<char>,
) -> KittenTurn {
    if worker.model && worker.stream {
        KittenTurn {
            state,
            worker: KittenWorkerView { job: KittenJobView::Speaking, ..worker },
            action: KittenActionView::Speak { text, voice },
        }
    } else {
        KittenTurn {
            state,
            worker: KittenWorkerView { job: KittenJobView::Idle, ..worker },
            action: KittenActionView::ReplySpoken,
        }
    }
}

/// Speaks, having opened the audio device first where that is needed.
pub open spec fn kitten_open_and_say(
    state: TtsStateView,
    worker: KittenWorkerView,
    text: Seq<char>,
    voice: Seq<char>,
) -> KittenTurn {
    if worker.stream {
        kitten_say(state, worker, text, voice)
    } else {
        KittenTurn {
            state,
            worker: KittenWorkerView { job: KittenJobView::SpeakOpen { text, voice }, ..worker },
            action: KittenActionView::OpenAudio,
        }
    }
}

/// What the worker does upon a command.
pub open spec fn kitten_command(
    state: TtsStateView,
    worker: KittenWorkerView,
    cmd: TtsCmdView,
) -> KittenTurn {
    match cmd {
        TtsCmdView::Init => if state.kitten_loaded {
            KittenTurn { state, worker, action: KittenActionView::ReplyInit { result: Ok(()) } }
        } else {
            KittenTurn {
                state,
                worker: KittenWorkerView { job: KittenJobView::InitLoad, ..worker },
                action: KittenActionView::Load { repo: HF_REPO@, report: true },
            }
        },
        TtsCmdView::Speak { text, voice } => if worker.model {
            kitten_open_and_say(state, worker, text, voice)
        } else {
            KittenTurn {
                state,
                worker: KittenWorkerView {
                    job: KittenJobView::SpeakLoad { text, voice },
                    ..worker
                },
                action: KittenActionView::Load { repo: HF_REPO@, report: false },
            }
        },
        TtsCmdView::Unload => KittenTurn {
            state: TtsStateView { kitten_loaded: false, ..state },
            worker: KittenWorkerView { model: false, ..worker },
            action: KittenActionView::ReplyUnloaded,
        },
    }
}

/// Whether an event can come while the worker is at `job`.
pub open spec fn kitten_expects(job: KittenJobView, event: KittenEventView) -> bool {
    match job {
        KittenJobView::Idle => event is Command,
        KittenJobView::InitLoad => event is Loaded || event is LoadFailed,
        KittenJobView::SpeakLoad { .. } => event is Loaded || event is LoadFailed,
        KittenJobView::SpeakOpen { .. } => event is Opened,
        KittenJobView::Speaking => event is Spoken,
    }
}

/// What the worker does upon an event that can come.
pub open spec fn kitten_turn(
    state: TtsStateView,
    worker: KittenWorkerView,
    event: KittenEventView,
) -> KittenTurn {
    let idle = KittenWorkerView { job: KittenJobView::Idle, ..worker };
    match (worker.job, event) {
        (_, KittenEventView::Command { cmd }) => kitten_command(state, worker, cmd),
        (KittenJobView::InitLoad, KittenEventView::Loaded { voices }) => KittenTurn {
            state: kitten_ready(state, voices),
            worker: KittenWorkerView { model: true, ..idle },
            action: KittenActionView::ReplyInit { result: Ok(()) },
        },
        (KittenJobView::InitLoad, KittenEventView::LoadFailed { error }) => KittenTurn {
            state,
            worker: idle,
            action: KittenActionView::ReplyInit {
                result: Err("kittentts: model load failed: "@ + error),
            },
        },
        (
            KittenJobView::SpeakLoad { text, voice },
            KittenEventView::Loaded { voices },
        ) => kitten_open_and_say(
            kitten_ready(state, voices),
            KittenWorkerView { model: true, ..worker },
            text,
            voice,
        ),
        (KittenJobView::SpeakLoad { .. }, KittenEventView::LoadFailed { .. }) => KittenTurn {
            state,
            worker: idle,
            action: KittenActionView::ReplySpoken,
        },
        (KittenJobView::SpeakOpen { text, voice }, KittenEventView::Opened { stream }) => kitten_say(
            state,
            KittenWorkerView { stream, ..worker },
            text,
            voice,
        ),
        (KittenJobView::Speaking, KittenEventView::Spoken) => KittenTurn {
            state,
            worker: idle,
            action: KittenActionView::ReplySpoken,
        },
        (_, _) => arbitrary(),
    }
}

/// Keeps a list of voices, unless one is known.
pub fn keep_voices(state: &mut TtsState, voices: Vec<String>)
    ensures
        final(state)@ == with_voices(old(state)@, texts(voices@)),
{
    if state.voices.is_none() {
        state.voices = Some(voices);
    }
}

impl KittenWorker {
    /// A worker without a model, with an audio device if one could be opened.
    pub fn new(stream: bool) -> (worker: KittenWorker)
        ensures
            worker@ == (KittenWorkerView { model: false, stream, job: KittenJobView::Idle }),
    {
        KittenWorker { model: false, stream, job: KittenJob::Idle }
    }

    /// Speaks, or gives up where model or audio device are missing.
    fn say(&mut self, state: &TtsState, text: String, voice: String) -> (action: KittenAction)
        ensures
            (KittenTurn { state: state@, worker: final(self)@, action: action@ }) == kitten_say(
                state@,
                old(self)@,
                text@,
                voice@,
            ),
    {
        if self.model && self.stream {
            self.job = KittenJob::Speaking;
            KittenAction::Speak { text, voice }
        } else {
            self.job = KittenJob::Idle;
            KittenAction::ReplySpoken
        }
    }

    /// Speaks, having opened the audio device first where that is needed.
    fn open_and_say(&mut self, state: &TtsState, text: String, voice: String) -> (action:
        KittenAction)
        ensures
            (KittenTurn { state: state@, worker: final(self)@, action: action@ })
                == kitten_open_and_say(state@, old(self)@, text@, voice@),
    {
        if self.stream {
            self.say(state, text, voice)
        } else {
            self.job = KittenJob::SpeakOpen { text, voice };
            KittenAction::OpenAudio
        }
    }

    /// Takes a command.
    fn command(&mut self, state: &mut TtsState, cmd: TtsCmd) -> (action: KittenAction)
        ensures
            (KittenTurn { state: final(state)@, worker: final(self)@, action: action@ })
                == kitten_command(old(state)@, old(self)@, cmd@),
    {
        match cmd {
            TtsCmd::Init => {
                if state.kitten_loaded {
                    return KittenAction::ReplyInit { result: Ok(()) };
                }
                self.job = KittenJob::InitLoad;
                KittenAction::Load { repo: HF_REPO.to_owned(), report: true }
            },
            TtsCmd::Speak { text, voice } => {
                if self.model {
                    return self.open_and_say(state, text, voice);
                }
                self.job = KittenJob::SpeakLoad { text, voice };
                KittenAction::Load { repo: HF_REPO.to_owned(), report: false }
            },
            TtsCmd::Unload => {
                self.model = false;
                state.kitten_loaded = false;
                KittenAction::ReplyUnloaded
            },
        }
    }

    /// Decides upon a command, or upon the outcome of the last action, what to
    /// do next.
    pub fn step(&mut self, state: &mut TtsState, event: KittenEvent) -> (action: KittenAction)
        requires
            kitten_expects(old(self)@.job, event@),
        ensures
            (KittenTurn { state: final(state)@, worker: final(self)@, action: action@ })
                == kitten_turn(old(state)@, old(self)@, event@),
    {
        let mut job = KittenJob::Idle;
        std::mem::swap(&mut self.job, &mut job);
        match (job, event) {
            (_, KittenEvent::Command { cmd }) => self.command(state, cmd),
            (KittenJob::InitLoad, KittenEvent::Loaded { voices }) => {
                keep_voices(state, voices);
                self.model = true;
                state.kitten_loaded = true;
                KittenAction::ReplyInit { result: Ok(()) }
            },
            (KittenJob::InitLoad, KittenEvent::LoadFailed { error }) => KittenAction::ReplyInit {
                result: Err("kittentts: model load failed: ".to_owned().concat(error.as_str())),
            },
            (KittenJob::SpeakLoad { text, voice }, KittenEvent::Loaded { voices }) => {
                keep_voices(state, voices);
                state.kitten_loaded = true;
                self.model = true;
                self.open_and_say(state, text, voice)
            },
            (KittenJob::SpeakOpen { text, voice }, KittenEvent::Opened { stream }) => {
                self.stream = stream;
                self.say(state, text, voice)
            },
            (KittenJob::SpeakLoad { .. }, KittenEvent::LoadFailed { .. }) => {
                KittenAction::ReplySpoken
            },
            (KittenJob::Speaking, KittenEvent::Spoken) => KittenAction::ReplySpoken,
            (_, _) => vstd::pervasive::unreached(),
        }
    }
}

/// What always holds of the shared state and the worker between two events: the
/// model is announced exactly while the worker holds it, a load is under way
/// only without a model, and what speaks has a model and an audio device.
pub open spec fn kitten_in_step(state: TtsStateView, worker: KittenWorkerView) -> bool {
    &&& state.kitten_loaded == worker.model
    &&& match worker.job {
        KittenJobView::Idle => true,
        KittenJobView::InitLoad => !worker.model,
        KittenJobView::SpeakLoad { .. } => !worker.model,
        KittenJobView::SpeakOpen { .. } => worker.model && !worker.stream,
        KittenJobView::Speaking => worker.model && worker.stream,
    }
}

/// Whether an action answers a command.
pub open spec fn kitten_replies(action: KittenActionView) -> bool {
    action is ReplyInit || action is ReplySpoken || action is ReplyUnloaded
}

/// How many events the worker can still need until it answers.
pub open spec fn kitten_left(job: KittenJobView) -> nat {
    match job {
        KittenJobView::Idle => 4,
        KittenJobView::InitLoad => 1,
        KittenJobView::SpeakLoad { .. } => 3,
        KittenJobView::SpeakOpen { .. } => 2,
        KittenJobView::Speaking => 1,
    }
}

/// A new worker agrees with the shared state of a new service.
pub proof fn kitten_starts_in_step(backends: Backends, stream: bool)
    ensures
        kitten_in_step(
            initial_state(backends),
            KittenWorkerView { model: false, stream, job: KittenJobView::Idle },
        ),
{
}

/// Worker and shared state agree after every event, whatever its outcome.
pub proof fn kitten_stays_in_step(
    state: TtsStateView,
    worker: KittenWorkerView,
    event: KittenEventView,
)
    requires
        kitten_in_step(state, worker),
        kitten_expects(worker.job, event),
    ensures
        ({
            let turn = kitten_turn(state, worker, event);
            &&& kitten_in_step(turn.state, turn.worker)
            &&& turn.action is Speak ==> turn.worker.model && turn.worker.stream
            &&& turn.action is Load ==> !turn.worker.model
        }),
{
}

/// Every command is answered once, by an answer of its kind, after at most four
/// events: the worker is idle again exactly when it answers.
pub proof fn kitten_answers(
    state: TtsStateView,
    worker: KittenWorkerView,
    event: KittenEventView,
)
    requires
        kitten_expects(worker.job, event),
    ensures
        ({
            let turn = kitten_turn(state, worker, event);
            let init = worker.job is InitLoad || event == (KittenEventView::Command {
                cmd: TtsCmdView::Init,
            });
            let unload = event == (KittenEventView::Command { cmd: TtsCmdView::Unload });
            &&& turn.worker.job is Idle <==> kitten_replies(turn.action)
            &&& !(turn.worker.job is Idle) ==> kitten_left(turn.worker.job) < kitten_left(
                worker.job,
            )
            &&& kitten_replies(turn.action) ==> (turn.action is ReplyInit <==> init)
            &&& turn.action is ReplyUnloaded <==> unload
        }),
{
}

/// Init is answered at once while the model is there. After an unload the next
/// init, and the next utterance, load it again.
pub proof fn kitten_reloads(
    state: TtsStateView,
    worker: KittenWorkerView,
    text: Seq<char>,
    voice: Seq<char>,
)
    requires
        kitten_in_step(state, worker),
        worker.job is Idle,
    ensures
        ({
            let init = KittenEventView::Command { cmd: TtsCmdView::Init };
            let speak = KittenEventView::Command { cmd: TtsCmdView::Speak { text, voice } };
            let unloaded = kitten_turn(
                state,
                worker,
                KittenEventView::Command { cmd: TtsCmdView::Unload },
            );
            &&& worker.model ==> kitten_turn(state, worker, init).action == (
            KittenActionView::ReplyInit { result: Ok(()) })
            &&& kitten_turn(unloaded.state, unloaded.worker, init).action is Load
            &&& kitten_turn(unloaded.state, unloaded.worker, speak).action is Load
        }),
{
}

/// The first list of voices that becomes known stays.
pub proof fn first_voices_stay(
    state: TtsStateView,
    first: Seq<Seq<char>>,
    second: Seq<Seq<char>>,
)
    ensures
        with_voices(with_voices(state, first), second) == with_voices(state, first),
        state.voices is None ==> with_voices(with_voices(state, first), second).voices == Some(
            first,
        ),
{
}

/// What follows a turn where a load yields the given voices and the audio device
/// can be opened. Speaking and answers are left as they are.
pub open spec fn kitten_succeeds(turn: KittenTurn, voices: Seq<Seq<char>>) -> KittenTurn {
    match turn.action {
        KittenActionView::Load { .. } => kitten_turn(
            turn.state,
            turn.worker,
            KittenEventView::Loaded { voices },
        ),
        KittenActionView::OpenAudio => kitten_turn(
            turn.state,
            turn.worker,
            KittenEventView::Opened { stream: true },
        ),
        _ => turn,
    }
}

/// What a worker has come to after a number of such outcomes.
pub open spec fn kitten_run(turn: KittenTurn, voices: Seq<Seq<char>>, n: nat) -> KittenTurn
    decreases n,
{
    if n == 0 {
        turn
    } else {
        kitten_succeeds(kitten_run(turn, voices, (n - 1) as nat), voices)
    }
}

/// An utterance is spoken with the text and in the voice of its command: at once
/// where model and audio device are there, otherwise once the model is loaded and
/// the audio device opened, in this order, and after nothing else. The command is
/// answered when it was spoken. A model that was loaded for it is announced, with
/// its voices unless some were known; nothing else changes.
pub proof fn kitten_says_the_command(
    state: TtsStateView,
    worker: KittenWorkerView,
    text: Seq<char>,
    voice: Seq<char>,
    voices: Seq<Seq<char>>,
)
    requires
        worker.job is Idle,
    ensures
        ({
            let start = kitten_turn(
                state,
                worker,
                KittenEventView::Command { cmd: TtsCmdView::Speak { text, voice } },
            );
            let loads: nat = if worker.model {
                0
            } else {
                1
            };
            let opens: nat = if worker.stream {
                0
            } else {
                1
            };
            let said = kitten_run(start, voices, loads + opens);
            let answered = kitten_turn(said.state, said.worker, KittenEventView::Spoken);
            &&& said.action == (KittenActionView::Speak { text, voice })
            &&& !worker.model ==> start.action == (KittenActionView::Load {
                repo: "KittenML/kitten-tts-mini-0.8"@,
                report: false,
            })
            &&& !worker.stream ==> kitten_run(start, voices, loads).action is OpenAudio
            &&& answered.action is ReplySpoken
            &&& answered.worker == (KittenWorkerView {
                model: true,
                stream: true,
                job: KittenJobView::Idle,
            })
            &&& worker.model ==> answered.state == state
            &&& !worker.model ==> answered.state == (TtsStateView {
                kitten_loaded: true,
                voices: if state.voices is Some {
                    state.voices
                } else {
                    Some(voices)
                },
                ..state
            })
        }),
{
    reveal_with_fuel(kitten_run, 3);
}

/// Whether the worker is at an utterance of `text` in `voice`.
pub open spec fn kitten_is_at(
    job: KittenJobView,
    event: KittenEventView,
    text: Seq<char>,
    voice: Seq<char>,
) -> bool {
    ||| event == (KittenEventView::Command { cmd: TtsCmdView::Speak { text, voice } })
    ||| job == (KittenJobView::SpeakLoad { text, voice })
    ||| job == (KittenJobView::SpeakOpen { text, voice })
}

/// Whatever the outcomes are, an utterance keeps its words and its voice until it
/// is spoken or given up.
pub proof fn kitten_keeps_the_words(
    state: TtsStateView,
    worker: KittenWorkerView,
    event: KittenEventView,
    text: Seq<char>,
    voice: Seq<char>,
)
    requires
        kitten_expects(worker.job, event),
        kitten_is_at(worker.job, event, text, voice),
    ensures
        match kitten_turn(state, worker, event).action {
            KittenActionView::Speak { text: t, voice: v } => t == text && v == voice,
            KittenActionView::Load { .. } => kitten_turn(state, worker, event).worker.job == (
            KittenJobView::SpeakLoad { text, voice }),
            KittenActionView::OpenAudio => kitten_turn(state, worker, event).worker.job == (
            KittenJobView::SpeakOpen { text, voice }),
            KittenActionView::ReplySpoken => event is LoadFailed || event == (
            KittenEventView::Opened { stream: false }) || !worker.model,
            _ => false,
        },
{
}

/// A failed load leaves worker and state as they were and is answered; an
/// initialisation hears of it in words. Without an audio device an utterance is
/// given up, and the device is tried again for the next.
pub proof fn kitten_gives_up(
    state: TtsStateView,
    worker: KittenWorkerView,
    error: Seq<char>,
)
    ensures
        ({
            let failed = kitten_turn(state, worker, KittenEventView::LoadFailed { error });
            let idle = KittenWorkerView { job: KittenJobView::Idle, ..worker };
            &&& worker.job is InitLoad || worker.job is SpeakLoad ==> failed.state == state
                && failed.worker == idle
            &&& worker.job is InitLoad ==> failed.action == (KittenActionView::ReplyInit {
                result: Err("kittentts: model load failed: "@ + error),
            })
            &&& worker.job is SpeakLoad ==> failed.action is ReplySpoken
            &&& worker.job is SpeakOpen ==> {
                let closed = kitten_turn(
                    state,
                    worker,
                    KittenEventView::Opened { stream: false },
                );
                &&& closed.action is ReplySpoken
                &&& closed.state == state
                &&& closed.worker == (KittenWorkerView { stream: false, ..idle })
            }
        }),
{
}

/// An initialisation without a model loads the KittenTTS model, reporting its
/// progress; once it is loaded the worker has it, it is announced with its voices
/// unless some were known, and the answer is success. With a model the answer is
/// success at once, and nothing changes.
pub proof fn kitten_initialises(
    state: TtsStateView,
    worker: KittenWorkerView,
    voices: Seq<Seq<char>>,
)
    requires
        worker.job is Idle,
    ensures
        ({
            let init = kitten_turn(
                state,
                worker,
                KittenEventView::Command { cmd: TtsCmdView::Init },
            );
            let loaded = kitten_turn(init.state, init.worker, KittenEventView::Loaded { voices });
            let success = KittenActionView::ReplyInit { result: Ok(()) };
            &&& state.kitten_loaded ==> init.action == success && init.state == state
                && init.worker == worker
            &&& !state.kitten_loaded ==> {
                &&& init.action == (KittenActionView::Load {
                    repo: "KittenML/kitten-tts-mini-0.8"@,
                    report: true,
                })
                &&& init.state == state
                &&& loaded.action == success
                &&& loaded.worker == (KittenWorkerView { model: true, ..worker })
                &&& loaded.state.kitten_loaded
                &&& state.voices is None ==> loaded.state.voices == Some(voices)
                &&& state.voices is Some ==> loaded.state.voices == state.voices
            }
        }),
{
}

/// An unload drops the model and withdraws that it is loaded; the audio device
/// and the known voices stay.
pub proof fn kitten_unloads(state: TtsStateView, worker: KittenWorkerView)
    requires
        worker.job is Idle,
    ensures
        ({
            let turn = kitten_turn(
                state,
                worker,
                KittenEventView::Command { cmd: TtsCmdView::Unload },
            );
            &&& turn.action is ReplyUnloaded
            &&& turn.worker == (KittenWorkerView { model: false, ..worker })
            &&& turn.state == (TtsStateView { kitten_loaded: false, ..state })
        }),
{
}

/// The views of the worker, its events and its actions show every part as it is.
pub proof fn kitten_is_seen_in_full(
    worker: KittenWorker,
    cmd: TtsCmd,
    a: String,
    b: String,
    flag: bool,
    list: Vec<String>,
)
    ensures
        worker@.model == worker.model && worker@.stream == worker.stream,
        worker@.job == worker.job@,
        (TtsCmd::Speak { text: a, voice: b })@ == (TtsCmdView::Speak { text: a@, voice: b@ }),
        TtsCmd::Init@ is Init && TtsCmd::Unload@ is Unload,
        KittenJob::Idle@ is Idle && KittenJob::InitLoad@ is InitLoad,
        KittenJob::Speaking@ is Speaking,
        (KittenJob::SpeakLoad { text: a, voice: b })@ == (KittenJobView::SpeakLoad {
            text: a@,
            voice: b@,
        }),
        (KittenJob::SpeakOpen { text: a, voice: b })@ == (KittenJobView::SpeakOpen {
            text: a@,
            voice: b@,
        }),
        (KittenEvent::Command { cmd })@ == (KittenEventView::Command { cmd: cmd@ }),
        (KittenEvent::Loaded { voices: list })@ == (KittenEventView::Loaded {
            voices: texts(list@),
        }),
        (KittenEvent::LoadFailed { error: a })@ == (KittenEventView::LoadFailed { error: a@ }),
        (KittenEvent::Opened { stream: flag })@ == (KittenEventView::Opened { stream: flag }),
        KittenEvent::Spoken@ is Spoken,
        (KittenAction::Load { repo: a, report: flag })@ == (KittenActionView::Load {
            repo: a@,
            report: flag,
        }),
        KittenAction::OpenAudio@ is OpenAudio,
        (KittenAction::Speak { text: a, voice: b })@ == (KittenActionView::Speak {
            text: a@,
            voice: b@,
        }),
        (KittenAction::ReplyInit { result: Ok(()) })@ == (KittenActionView::ReplyInit {
            result: Ok(()),
        }),
        (KittenAction::ReplyInit { result: Err(a) })@ == (KittenActionView::ReplyInit {
            result: Err(a@),
        }),
        KittenAction::ReplySpoken@ is ReplySpoken,
        KittenAction::ReplyUnloaded@ is ReplyUnloaded,
{
}

/// Every outcome of an action can be handed to the worker, and every command once
/// it has answered.
pub proof fn kitten_takes_every_outcome(
    state: TtsStateView,
    worker: KittenWorkerView,
    event: KittenEventView,
    voices: Seq<Seq<char>>,
    error: Seq<char>,
    stream: bool,
    cmd: TtsCmdView,
)
    requires
        kitten_expects(worker.job, event),
    ensures
        ({
            let turn = kitten_turn(state, worker, event);
            let job = turn.worker.job;
            match turn.action {
                KittenActionView::Load { .. } => {
                    &&& kitten_expects(job, KittenEventView::Loaded { voices })
                    &&& kitten_expects(job, KittenEventView::LoadFailed { error })
                },
                KittenActionView::OpenAudio => kitten_expects(
                    job,
                    KittenEventView::Opened { stream },
                ),
                KittenActionView::Speak { .. } => kitten_expects(job, KittenEventView::Spoken),
                _ => kitten_expects(job, KittenEventView::Command { cmd }),
            }
        }),
        kitten_expects(KittenJobView::Idle, KittenEventView::Command { cmd }),
{
}

} // verus!
