//! The NeuTTS worker: one model, one reference voice, one audio device, one
//! command at a time.
//!
//! [`NeuttsWorker::step`] takes a command, or the outcome of the last action,
//! and names the next action.

use vstd::prelude::*;
use vstd::string::*;

use crate::reference::{builtin_voice, VoiceRef, VoiceRefView};
use crate::state::{
    clone_opt, initial_state, opt_text, same_opt, with_config, Backends, NeuttsConfig, NeuttsRuntimeConfig,
    NeuttsRuntimeConfigView, TtsState, TtsStateView,
};
use crate::text::same_text;
use crate::voices::{is_neutts_preset, preset_names, presets_are_these};
use crate::wav::{
    one_change_changes_message, one_change_changes_path, sha256_digest, wav_path,
    wav_path_names_digest, Utterance,
};

verus! {

/// A command to the worker.
#[derive(Debug, PartialEq, Eq)]
pub enum NeuttsCmd {
    /// Load the model and the voice of `cfg`.
    Init { cfg: NeuttsRuntimeConfig },
    /// Say `text`. A preset in `voice_override` speaks this utterance only.
    Speak { text: String, voice_override: Option<String> },
    /// Drop the model.
    Unload,
}

/// A [`NeuttsCmd`] as mathematical text.
#[verifier::ext_equal]
pub enum NeuttsCmdView {
    Init { cfg: NeuttsRuntimeConfigView },
    Speak { text: Seq<char>, voice_override: Option<Seq<char>> },
    Unload,
}

impl View for NeuttsCmd {
    type V = NeuttsCmdView;

    open spec fn view(&self) -> NeuttsCmdView {
        match *self {
            NeuttsCmd::Init { cfg } => NeuttsCmdView::Init { cfg: cfg@ },
            NeuttsCmd::Speak { text, voice_override } => NeuttsCmdView::Speak {
                text: text@,
                voice_override: opt_text(voice_override),
            },
            NeuttsCmd::Unload => NeuttsCmdView::Unload,
        }
    }
}

/// What the worker is at.
#[derive(Debug, PartialEq, Eq)]
pub enum NeuttsJob {
    Idle,
    /// Loading a model because it was told to.
    InitLoad { cfg: NeuttsRuntimeConfig },
    /// Loading the voice because it was told to.
    InitVoice,
    /// Loading a model because it has to speak.
    SpeakLoad { cfg: NeuttsRuntimeConfig, text: String, voice_override: Option<String> },
    /// Loading the voice because it has to speak.
    SpeakVoice { text: String, voice_override: Option<String> },
    /// Opening the audio device because it has to speak.
    SpeakOpen { text: String, voice_override: Option<String> },
    /// Loading the voice of this utterance.
    SpeakOverride { text: String },
    Speaking,
}

/// A [`NeuttsJob`] as mathematical text.
#[verifier::ext_equal]
pub enum NeuttsJobView {
    Idle,
    InitLoad { cfg: NeuttsRuntimeConfigView },
    InitVoice,
    SpeakLoad {
        cfg: NeuttsRuntimeConfigView,
        text: Seq<char>,
        voice_override: Option<Seq<char>>,
    },
    SpeakVoice { text: Seq<char>, voice_override: Option<Seq<char>> },
    SpeakOpen { text: Seq<char>, voice_override: Option<Seq<char>> },
    SpeakOverride { text: Seq<char> },
    Speaking,
}

impl View for NeuttsJob {
    type V = NeuttsJobView;

    open spec fn view(&self) -> NeuttsJobView {
        match *self {
            NeuttsJob::Idle => NeuttsJobView::Idle,
            NeuttsJob::InitLoad { cfg } => NeuttsJobView::InitLoad { cfg: cfg@ },
            NeuttsJob::InitVoice => NeuttsJobView::InitVoice,
            NeuttsJob::SpeakLoad { cfg, text, voice_override } => NeuttsJobView::SpeakLoad {
                cfg: cfg@,
                text: text@,
                voice_override: opt_text(voice_override),
            },
            NeuttsJob::SpeakVoice { text, voice_override } => NeuttsJobView::SpeakVoice {
                text: text@,
                voice_override: opt_text(voice_override),
            },
            NeuttsJob::SpeakOpen { text, voice_override } => NeuttsJobView::SpeakOpen {
                text: text@,
                voice_override: opt_text(voice_override),
            },
            NeuttsJob::SpeakOverride { text } => NeuttsJobView::SpeakOverride { text: text@ },
            NeuttsJob::Speaking => NeuttsJobView::Speaking,
        }
    }
}

/// The worker: whether it holds a model and an audio device, which model and
/// voice it holds, and what it is at.
#[derive(Debug, PartialEq, Eq)]
pub struct NeuttsWorker {
    pub model: bool,
    /// The repository of the model; empty without a model.
    pub backbone: String,
    /// The GGUF file that the model was asked for by, if by any.
    pub gguf_file: Option<String>,
    pub voice: VoiceRef,
    pub stream: bool,
    pub job: NeuttsJob,
}

/// A [`NeuttsWorker`] as mathematical text.
#[verifier::ext_equal]
pub struct NeuttsWorkerView {
    pub model: bool,
    pub backbone: Seq<char>,
    pub gguf_file: Option<Seq<char>>,
    pub voice: VoiceRefView,
    pub stream: bool,
    pub job: NeuttsJobView,
}

impl View for NeuttsWorker {
    type V = NeuttsWorkerView;

    open spec fn view(&self) -> NeuttsWorkerView {
        NeuttsWorkerView {
            model: self.model,
            backbone: self.backbone@,
            gguf_file: opt_text(self.gguf_file),
            voice: self.voice@,
            stream: self.stream,
            job: self.job@,
        }
    }
}

impl NeuttsWorkerView {
    /// The same worker at another job.
    pub open spec fn at(self, job: NeuttsJobView) -> NeuttsWorkerView {
        NeuttsWorkerView { job, ..self }
    }
}

/// A command, or the outcome of an action.
#[derive(Debug, PartialEq, Eq)]
pub enum NeuttsEvent {
    Command { cmd: NeuttsCmd },
    Loaded,
    LoadFailed { error: String },
    VoiceLoaded { voice: VoiceRef },
    /// Whether the audio device could be opened.
    Opened { stream: bool },
    /// Speaking is over, whether it succeeded or not.
    Spoken,
}

/// A [`NeuttsEvent`] as mathematical text.
#[verifier::ext_equal]
pub enum NeuttsEventView {
    Command { cmd: NeuttsCmdView },
    Loaded,
    LoadFailed { error: Seq<char> },
    VoiceLoaded { voice: VoiceRefView },
    Opened { stream: bool },
    Spoken,
}

impl View for NeuttsEvent {
    type V = NeuttsEventView;

    open spec fn view(&self) -> NeuttsEventView {
        match *self {
            NeuttsEvent::Command { cmd } => NeuttsEventView::Command { cmd: cmd@ },
            NeuttsEvent::Loaded => NeuttsEventView::Loaded,
            NeuttsEvent::LoadFailed { error } => NeuttsEventView::LoadFailed { error: error@ },
            NeuttsEvent::VoiceLoaded { voice } => NeuttsEventView::VoiceLoaded { voice: voice@ },
            NeuttsEvent::Opened { stream } => NeuttsEventView::Opened { stream },
            NeuttsEvent::Spoken => NeuttsEventView::Spoken,
        }
    }
}

/// The work to do next.
#[derive(Debug, PartialEq, Eq)]
pub enum NeuttsAction {
    /// Load a model, reporting progress or not.
    Load { repo: String, gguf_file: Option<String>, report: bool },
    /// Load a reference voice.
    LoadVoice { preset: String, wav: String, text: String },
    /// Open the audio device.
    OpenAudio,
    /// Speak, from the cache where possible.
    Speak { text: String, backbone: String, gguf_file: Option<String>, voice: VoiceRef },
    /// Answer an `Init`.
    ReplyInit { result: Result<(), String> },
    /// Answer a `Speak`.
    ReplySpoken,
    /// Drop the model and answer an `Unload`.
    ReplyUnloaded,
}

/// A [`NeuttsAction`] as mathematical text.
#[verifier::ext_equal]
pub enum NeuttsActionView {
    Load { repo: Seq<char>, gguf_file: Option<Seq<char>>, report: bool },
    LoadVoice { preset: Seq<char>, wav: Seq<char>, text: Seq<char> },
    OpenAudio,
    Speak {
        text: Seq<char>,
        backbone: Seq<char>,
        gguf_file: Option<Seq<char>>,
        voice: VoiceRefView,
    },
    ReplyInit { result: Result<(), Seq<char>> },
    ReplySpoken,
    ReplyUnloaded,
}

impl View for NeuttsAction {
    type V = NeuttsActionView;

    open spec fn view(&self) -> NeuttsActionView {
        match *self {
            NeuttsAction::Load { repo, gguf_file, report } => NeuttsActionView::Load {
                repo: repo@,
                gguf_file: opt_text(gguf_file),
                report,
            },
            NeuttsAction::LoadVoice { preset, wav, text } => NeuttsActionView::LoadVoice {
                preset: preset@,
                wav: wav@,
                text: text@,
            },
            NeuttsAction::OpenAudio => NeuttsActionView::OpenAudio,
            NeuttsAction::Speak { text, backbone, gguf_file, voice } => NeuttsActionView::Speak {
                text: text@,
                backbone: backbone@,
                gguf_file: opt_text(gguf_file),
                voice: voice@,
            },
            NeuttsAction::ReplyInit { result } => NeuttsActionView::ReplyInit {
                result: match result {
                    Ok(_) => Ok(()),
                    Err(e) => Err(e@),
                },
            },
            NeuttsAction::ReplySpoken => NeuttsActionView::ReplySpoken,
            NeuttsAction::ReplyUnloaded => NeuttsActionView::ReplyUnloaded,
        }
    }
}

/// What a decision yields.
#[verifier::ext_equal]
pub struct NeuttsTurn {
    pub state: TtsStateView,
    pub worker: NeuttsWorkerView,
    pub action: NeuttsActionView,
}

/// A worker without a model.
pub open spec fn empty_worker(stream: bool) -> NeuttsWorkerView {
    NeuttsWorkerView {
        model: false,
        backbone: Seq::empty(),
        gguf_file: None,
        voice: builtin_voice(),
        stream,
        job: NeuttsJobView::Idle,
    }
}

/// The action that loads the voice of some settings.
pub open spec fn load_voice_of(cfg: NeuttsRuntimeConfigView) -> NeuttsActionView {
    NeuttsActionView::LoadVoice {
        preset: cfg.voice_preset,
        wav: cfg.ref_wav_path,
        text: cfg.ref_text,
    }
}

/// Speaks in `voice`, or gives up where model or audio device are missing.
pub open spec fn neutts_say(
    state: TtsStateView,
    worker: NeuttsWorkerView,
    text: Seq<char>,
    voice: VoiceRefView,
) -> NeuttsTurn {
    if worker.model && worker.stream {
        NeuttsTurn {
            state,
            worker: worker.at(NeuttsJobView::Speaking),
            action: NeuttsActionView::Speak {
                text,
                backbone: worker.backbone,
                gguf_file: worker.gguf_file,
                voice,
            },
        }
    } else {
        NeuttsTurn {
            state,
            worker: worker.at(NeuttsJobView::Idle),
            action: NeuttsActionView::ReplySpoken,
        }
    }
}

/// Speaks, in another voice where the utterance names a preset.
pub open spec fn neutts_choose_and_say(
    state: TtsStateView,
    worker: NeuttsWorkerView,
    text: Seq<char>,
    voice_override: Option<Seq<char>>,
) -> NeuttsTurn {
    match voice_override {
        Some(name) if preset_names().contains(name) => NeuttsTurn {
            state,
            worker: worker.at(NeuttsJobView::SpeakOverride { text }),
            action: NeuttsActionView::LoadVoice {
                preset: name,
                wav: Seq::empty(),
                text: Seq::empty(),
            },
        },
        _ => neutts_say(state, worker, text, worker.voice),
    }
}

/// Speaks, having opened the audio device first where that is needed.
pub open spec fn neutts_open_and_say(
    state: TtsStateView,
    worker: NeuttsWorkerView,
    text: Seq<char>,
    voice_override: Option<Seq<char>>,
) -> NeuttsTurn {
    if worker.stream {
        neutts_choose_and_say(state, worker, text, voice_override)
    } else {
        NeuttsTurn {
            state,
            worker: worker.at(NeuttsJobView::SpeakOpen { text, voice_override }),
            action: NeuttsActionView::OpenAudio,
        }
    }
}

/// Whether the worker holds the model that some settings ask for.
pub open spec fn holds_model_of(worker: NeuttsWorkerView, cfg: NeuttsRuntimeConfigView) -> bool {
    worker.model && worker.backbone == cfg.backbone_repo && worker.gguf_file == cfg.gguf_file
}

/// What the worker does upon a command.
pub open spec fn neutts_command(
    state: TtsStateView,
    worker: NeuttsWorkerView,
    cmd: NeuttsCmdView,
) -> NeuttsTurn {
    match cmd {
        NeuttsCmdView::Init { cfg } => if !holds_model_of(worker, cfg) {
            NeuttsTurn {
                state: TtsStateView { neutts_loading: true, neutts_ready: false, ..state },
                worker: worker.at(NeuttsJobView::InitLoad { cfg }),
                action: NeuttsActionView::Load {
                    repo: cfg.backbone_repo,
                    gguf_file: cfg.gguf_file,
                    report: true,
                },
            }
        } else {
            NeuttsTurn {
                state: TtsStateView { neutts_loading: true, ..state },
                worker: worker.at(NeuttsJobView::InitVoice),
                action: load_voice_of(cfg),
            }
        },
        NeuttsCmdView::Speak { text, voice_override } => if worker.model {
            neutts_open_and_say(state, worker, text, voice_override)
        } else {
            let cfg = state.neutts_cfg;
            NeuttsTurn {
                state,
                worker: worker.at(NeuttsJobView::SpeakLoad { cfg, text, voice_override }),
                action: NeuttsActionView::Load {
                    repo: cfg.backbone_repo,
                    gguf_file: cfg.gguf_file,
                    report: false,
                },
            }
        },
        NeuttsCmdView::Unload => NeuttsTurn {
            state: TtsStateView { neutts_loading: false, neutts_ready: false, ..state },
            worker: empty_worker(worker.stream),
            action: NeuttsActionView::ReplyUnloaded,
        },
    }
}

/// Whether an event can come while the worker is at `job`.
pub open spec fn neutts_expects(job: NeuttsJobView, event: NeuttsEventView) -> bool {
    match job {
        NeuttsJobView::Idle => event is Command,
        NeuttsJobView::InitLoad { .. } => event is Loaded || event is LoadFailed,
        NeuttsJobView::InitVoice => event is VoiceLoaded,
        NeuttsJobView::SpeakLoad { .. } => event is Loaded || event is LoadFailed,
        NeuttsJobView::SpeakVoice { .. } => event is VoiceLoaded,
        NeuttsJobView::SpeakOpen { .. } => event is Opened,
        NeuttsJobView::SpeakOverride { .. } => event is VoiceLoaded,
        NeuttsJobView::Speaking => event is Spoken,
    }
}

/// What the worker does upon an event that can come.
pub open spec fn neutts_turn(
    state: TtsStateView,
    worker: NeuttsWorkerView,
    event: NeuttsEventView,
) -> NeuttsTurn {
    let idle = worker.at(NeuttsJobView::Idle);
    match (worker.job, event) {
        (_, NeuttsEventView::Command { cmd }) => neutts_command(state, worker, cmd),
        (NeuttsJobView::InitLoad { cfg }, NeuttsEventView::Loaded) => NeuttsTurn {
            state,
            worker: NeuttsWorkerView {
                model: true,
                backbone: cfg.backbone_repo,
                gguf_file: cfg.gguf_file,
                job: NeuttsJobView::InitVoice,
                ..worker
            },
            action: load_voice_of(cfg),
        },
        (NeuttsJobView::InitLoad { .. }, NeuttsEventView::LoadFailed { error }) => NeuttsTurn {
            state: TtsStateView { neutts_loading: false, ..state },
            worker: idle,
            action: NeuttsActionView::ReplyInit {
                result: Err("neutts: backbone load failed: "@ + error),
            },
        },
        (NeuttsJobView::InitVoice, NeuttsEventView::VoiceLoaded { voice }) => NeuttsTurn {
            state: TtsStateView { neutts_loading: false, neutts_ready: true, ..state },
            worker: NeuttsWorkerView { voice, ..idle },
            action: NeuttsActionView::ReplyInit { result: Ok(()) },
        },
        (
            NeuttsJobView::SpeakLoad { cfg, text, voice_override },
            NeuttsEventView::Loaded,
        ) => NeuttsTurn {
            state,
            worker: NeuttsWorkerView {
                model: true,
                backbone: cfg.backbone_repo,
                gguf_file: cfg.gguf_file,
                job: NeuttsJobView::SpeakVoice { text, voice_override },
                ..worker
            },
            action: load_voice_of(cfg),
        },
        (
            NeuttsJobView::SpeakVoice { text, voice_override },
            NeuttsEventView::VoiceLoaded { voice },
        ) => neutts_open_and_say(
            TtsStateView { neutts_ready: true, ..state },
            NeuttsWorkerView { voice, ..worker },
            text,
            voice_override,
        ),
        (
            NeuttsJobView::SpeakOpen { text, voice_override },
            NeuttsEventView::Opened { stream },
        ) => neutts_choose_and_say(
            state,
            NeuttsWorkerView { stream, ..worker },
            text,
            voice_override,
        ),
        (
            NeuttsJobView::SpeakOverride { text },
            NeuttsEventView::VoiceLoaded { voice },
        ) => neutts_say(state, worker, text, voice),
        (NeuttsJobView::SpeakLoad { .. }, NeuttsEventView::LoadFailed { .. }) => NeuttsTurn {
            state,
            worker: idle,
            action: NeuttsActionView::ReplySpoken,
        },
        (NeuttsJobView::Speaking, NeuttsEventView::Spoken) => NeuttsTurn {
            state,
            worker: idle,
            action: NeuttsActionView::ReplySpoken,
        },
        (_, _) => arbitrary(),
    }
}

/// Copies codes.
fn clone_codes(codes: &Vec<i32>) -> (copy: Vec<i32>)
    ensures
        copy@ == codes@,
{
    let mut copy: Vec<i32> = Vec::new();
    let mut i: usize = 0;
    while i < codes.len()
        invariant
            i <= codes@.len(),
            copy@ == codes@.take(i as int),
        decreases codes@.len() - i,
    {
        copy.push(codes[i]);
        i = i + 1;
        assert(copy@ =~= codes@.take(i as int));
    }
    assert(codes@.take(i as int) =~= codes@);
    copy
}

/// Copies a reference voice.
fn clone_voice(voice: &VoiceRef) -> (copy: VoiceRef)
    ensures
        copy@ == voice@,
{
    VoiceRef {
        codes: clone_codes(&voice.codes),
        text: voice.text.clone(),
        key: voice.key.clone(),
    }
}

/// The model's own voice.
fn own_voice() -> (voice: VoiceRef)
    ensures
        voice@ == builtin_voice(),
{
    let codes: Vec<i32> = Vec::new();
    assert(codes@ =~= Seq::<i32>::empty());
    VoiceRef { codes, text: String::new(), key: "default".to_owned() }
}

/// The action that loads the voice of some settings.
fn load_voice(cfg: NeuttsRuntimeConfig) -> (action: NeuttsAction)
    ensures
        action@ == load_voice_of(cfg@),
{
    NeuttsAction::LoadVoice {
        preset: cfg.voice_preset,
        wav: cfg.ref_wav_path,
        text: cfg.ref_text,
    }
}

impl NeuttsWorker {
    /// A worker without a model, with an audio device if one could be opened.
    pub fn new(stream: bool) -> (worker: NeuttsWorker)
        ensures
            worker@ == empty_worker(stream),
    {
        NeuttsWorker {
            model: false,
            backbone: String::new(),
            gguf_file: None,
            voice: own_voice(),
            stream,
            job: NeuttsJob::Idle,
        }
    }

    /// Speaks in `voice`, or gives up where model or audio device are missing.
    fn say(&mut self, state: &TtsState, text: String, voice: VoiceRef) -> (action: NeuttsAction)
        ensures
            (NeuttsTurn { state: state@, worker: final(self)@, action: action@ }) == neutts_say(
                state@,
                old(self)@,
                text@,
                voice@,
            ),
    {
        if self.model && self.stream {
            self.job = NeuttsJob::Speaking;
            NeuttsAction::Speak {
                text,
                backbone: self.backbone.clone(),
                gguf_file: clone_opt(&self.gguf_file),
                voice,
            }
        } else {
            self.job = NeuttsJob::Idle;
            NeuttsAction::ReplySpoken
        }
    }

    /// Speaks, in another voice where the utterance names a preset.
    fn choose_and_say(
        &mut self,
        state: &TtsState,
        text: String,
        voice_override: Option<String>,
    ) -> (action: NeuttsAction)
        ensures
            (NeuttsTurn { state: state@, worker: final(self)@, action: action@ })
                == neutts_choose_and_say(state@, old(self)@, text@, opt_text(voice_override)),
    {
        match voice_override {
            Some(name) => {
                if is_neutts_preset(name.as_str()) {
                    self.job = NeuttsJob::SpeakOverride { text };
                    return NeuttsAction::LoadVoice {
                        preset: name,
                        wav: String::new(),
                        text: String::new(),
                    };
                }
            },
            None => {},
        }
        let voice = clone_voice(&self.voice);
        self.say(state, text, voice)
    }

    /// Speaks, having opened the audio device first where that is needed.
    fn open_and_say(
        &mut self,
        state: &TtsState,
        text: String,
        voice_override: Option<String>,
    ) -> (action: NeuttsAction)
        ensures
            (NeuttsTurn { state: state@, worker: final(self)@, action: action@ })
                == neutts_open_and_say(state@, old(self)@, text@, opt_text(voice_override)),
    {
        if self.stream {
            self.choose_and_say(state, text, voice_override)
        } else {
            self.job = NeuttsJob::SpeakOpen { text, voice_override };
            NeuttsAction::OpenAudio
        }
    }

    /// Tests whether the worker holds the model that some settings ask for.
    fn holds_model(&self, cfg: &NeuttsRuntimeConfig) -> (holds: bool)
        ensures
            holds == holds_model_of(self@, cfg@),
    {
        self.model && same_text(self.backbone.as_str(), cfg.backbone_repo.as_str()) && same_opt(
            &self.gguf_file,
            &cfg.gguf_file,
        )
    }

    /// Takes a command.
    fn command(&mut self, state: &mut TtsState, cmd: NeuttsCmd) -> (action: NeuttsAction)
        ensures
            (NeuttsTurn { state: final(state)@, worker: final(self)@, action: action@ })
                == neutts_command(old(state)@, old(self)@, cmd@),
    {
        match cmd {
            NeuttsCmd::Init { cfg } => {
                state.neutts_loading = true;
                if !self.holds_model(&cfg) {
                    state.neutts_ready = false;
                    let action = NeuttsAction::Load {
                        repo: cfg.backbone_repo.clone(),
                        gguf_file: clone_opt(&cfg.gguf_file),
                        report: true,
                    };
                    self.job = NeuttsJob::InitLoad { cfg };
                    action
                } else {
                    self.job = NeuttsJob::InitVoice;
                    load_voice(cfg)
                }
            },
            NeuttsCmd::Speak { text, voice_override } => {
                if self.model {
                    return self.open_and_say(state, text, voice_override);
                }
                let cfg = state.neutts_cfg.clone();
                let action = NeuttsAction::Load {
                    repo: cfg.backbone_repo.clone(),
                    gguf_file: clone_opt(&cfg.gguf_file),
                    report: false,
                };
                self.job = NeuttsJob::SpeakLoad { cfg, text, voice_override };
                action
            },
            NeuttsCmd::Unload => {
                self.model = false;
                self.voice = own_voice();
                self.backbone = String::new();
                self.gguf_file = None;
                self.job = NeuttsJob::Idle;
                state.neutts_ready = false;
                state.neutts_loading = false;
                NeuttsAction::ReplyUnloaded
            },
        }
    }

    /// Decides upon a command, or upon the outcome of the last action, what to
    /// do next.
    pub fn step(&mut self, state: &mut TtsState, event: NeuttsEvent) -> (action: NeuttsAction)
        requires
            neutts_expects(old(self)@.job, event@),
        ensures
            (NeuttsTurn { state: final(state)@, worker: final(self)@, action: action@ })
                == neutts_turn(old(state)@, old(self)@, event@),
    {
        let mut job = NeuttsJob::Idle;
        std::mem::swap(&mut self.job, &mut job);
        match (job, event) {
            (_, NeuttsEvent::Command { cmd }) => self.command(state, cmd),
            (NeuttsJob::InitLoad { cfg }, NeuttsEvent::Loaded) => {
                self.backbone = cfg.backbone_repo.clone();
                self.gguf_file = clone_opt(&cfg.gguf_file);
                self.model = true;
                self.job = NeuttsJob::InitVoice;
                load_voice(cfg)
            },
            (NeuttsJob::InitLoad { .. }, NeuttsEvent::LoadFailed { error }) => {
                state.neutts_loading = false;
                NeuttsAction::ReplyInit {
                    result: Err(
                        "neutts: backbone load failed: ".to_owned().concat(error.as_str()),
                    ),
                }
            },
            (NeuttsJob::InitVoice, NeuttsEvent::VoiceLoaded { voice }) => {
                self.voice = voice;
                state.neutts_ready = true;
                state.neutts_loading = false;
                NeuttsAction::ReplyInit { result: Ok(()) }
            },
            (NeuttsJob::SpeakLoad { cfg, text, voice_override }, NeuttsEvent::Loaded) => {
                self.backbone = cfg.backbone_repo.clone();
                self.gguf_file = clone_opt(&cfg.gguf_file);
                self.model = true;
                self.job = NeuttsJob::SpeakVoice { text, voice_override };
                load_voice(cfg)
            },
            (
                NeuttsJob::SpeakVoice { text, voice_override },
                NeuttsEvent::VoiceLoaded { voice },
            ) => {
                self.voice = voice;
                state.neutts_ready = true;
                self.open_and_say(state, text, voice_override)
            },
            (NeuttsJob::SpeakOpen { text, voice_override }, NeuttsEvent::Opened { stream }) => {
                self.stream = stream;
                self.choose_and_say(state, text, voice_override)
            },
            (NeuttsJob::SpeakOverride { text }, NeuttsEvent::VoiceLoaded { voice }) => {
                self.say(state, text, voice)
            },
            (NeuttsJob::SpeakLoad { .. }, NeuttsEvent::LoadFailed { .. }) => {
                NeuttsAction::ReplySpoken
            },
            (NeuttsJob::Speaking, NeuttsEvent::Spoken) => NeuttsAction::ReplySpoken,
            (_, _) => vstd::pervasive::unreached(),
        }
    }
}

/// What always holds of the shared state and the worker between two events: an
/// engine is announced as ready only with a model, and as loading exactly while
/// it is initialised; without a model there is no voice but the model's own;
/// and what speaks has a model and an audio device.
pub open spec fn neutts_in_step(state: TtsStateView, worker: NeuttsWorkerView) -> bool {
    &&& state.neutts_ready ==> worker.model
    &&& state.neutts_loading == (worker.job is InitLoad || worker.job is InitVoice)
    &&& !worker.model ==> worker == empty_worker(worker.stream).at(worker.job)
    &&& match worker.job {
        NeuttsJobView::Idle => true,
        NeuttsJobView::InitLoad { .. } => !state.neutts_ready,
        NeuttsJobView::InitVoice => worker.model,
        NeuttsJobView::SpeakLoad { .. } => !worker.model,
        NeuttsJobView::SpeakVoice { .. } => worker.model,
        NeuttsJobView::SpeakOpen { .. } => worker.model && !worker.stream,
        NeuttsJobView::SpeakOverride { .. } => worker.model,
        NeuttsJobView::Speaking => worker.model && worker.stream,
    }
}

/// Whether an action answers a command.
pub open spec fn neutts_replies(action: NeuttsActionView) -> bool {
    action is ReplyInit || action is ReplySpoken || action is ReplyUnloaded
}

/// How many events the worker can still need until it answers.
pub open spec fn neutts_left(job: NeuttsJobView) -> nat {
    match job {
        NeuttsJobView::Idle => 6,
        NeuttsJobView::InitLoad { .. } => 2,
        NeuttsJobView::InitVoice => 1,
        NeuttsJobView::SpeakLoad { .. } => 5,
        NeuttsJobView::SpeakVoice { .. } => 4,
        NeuttsJobView::SpeakOpen { .. } => 3,
        NeuttsJobView::SpeakOverride { .. } => 2,
        NeuttsJobView::Speaking => 1,
    }
}

/// A new worker agrees with the shared state of a new service.
pub proof fn neutts_starts_in_step(backends: Backends, stream: bool)
    ensures
        neutts_in_step(initial_state(backends), empty_worker(stream)),
{
}

/// Worker and shared state agree after every event, whatever its outcome.
pub proof fn neutts_stays_in_step(
    state: TtsStateView,
    worker: NeuttsWorkerView,
    event: NeuttsEventView,
)
    requires
        neutts_in_step(state, worker),
        neutts_expects(worker.job, event),
    ensures
        ({
            let turn = neutts_turn(state, worker, event);
            &&& neutts_in_step(turn.state, turn.worker)
            &&& turn.action is Speak ==> turn.worker.model && turn.worker.stream
            &&& turn.action is LoadVoice ==> turn.worker.model
        }),
{
}

/// New settings keep the agreement, whatever the worker is at: they can only
/// withdraw that the engine is ready.
pub proof fn settings_keep_step(state: TtsStateView, worker: NeuttsWorkerView, cfg: NeuttsConfig)
    requires
        neutts_in_step(state, worker),
    ensures
        neutts_in_step(with_config(state, cfg), worker),
        with_config(state, cfg).neutts_ready ==> state.neutts_ready,
{
}

/// Every command is answered once, by an answer of its kind, after at most six
/// events: the worker is idle again exactly when it answers.
pub proof fn neutts_answers(
    state: TtsStateView,
    worker: NeuttsWorkerView,
    event: NeuttsEventView,
)
    requires
        neutts_expects(worker.job, event),
    ensures
        ({
            let turn = neutts_turn(state, worker, event);
            let init = worker.job is InitLoad || worker.job is InitVoice || (event is Command
                && event->cmd is Init);
            let unload = event == (NeuttsEventView::Command { cmd: NeuttsCmdView::Unload });
            &&& turn.worker.job is Idle <==> neutts_replies(turn.action)
            &&& !(turn.worker.job is Idle) ==> neutts_left(turn.worker.job) < neutts_left(
                worker.job,
            )
            &&& neutts_replies(turn.action) ==> (turn.action is ReplyInit <==> init)
            &&& turn.action is ReplyUnloaded <==> unload
        }),
{
}

/// The engine becomes ready exactly when a voice was loaded for it, which takes
/// a model; an unsuccessful load leaves the model and the voice from before.
pub proof fn ready_after_voice(
    state: TtsStateView,
    worker: NeuttsWorkerView,
    event: NeuttsEventView,
)
    requires
        neutts_in_step(state, worker),
        neutts_expects(worker.job, event),
    ensures
        ({
            let turn = neutts_turn(state, worker, event);
            &&& !state.neutts_ready && turn.state.neutts_ready ==> event is VoiceLoaded && (
            worker.job is InitVoice || worker.job is SpeakVoice) && turn.worker.voice
                == event->voice
            &&& turn.action == (NeuttsActionView::ReplyInit { result: Ok(()) })
                ==> turn.state.neutts_ready
            &&& event is LoadFailed ==> turn.worker == worker.at(NeuttsJobView::Idle)
        }),
{
}

/// A voice for one utterance leaves the worker's voice as it is: while a model
/// is there, speaking changes neither the model nor the voice. Without a preset
/// in the command, the utterance is spoken in the worker's voice.
pub proof fn override_is_for_one_utterance(
    state: TtsStateView,
    worker: NeuttsWorkerView,
    event: NeuttsEventView,
    text: Seq<char>,
    voice_override: Option<Seq<char>>,
)
    requires
        neutts_in_step(state, worker),
        neutts_expects(worker.job, event),
    ensures
        ({
            let turn = neutts_turn(state, worker, event);
            let speak = event == (NeuttsEventView::Command {
                cmd: NeuttsCmdView::Speak { text, voice_override },
            });
            let named = voice_override is Some && preset_names().contains(voice_override->0);
            let unchanged = turn.worker.voice == worker.voice && turn.worker.backbone
                == worker.backbone && turn.worker.gguf_file == worker.gguf_file;
            &&& speak || worker.job is SpeakOpen || worker.job is SpeakOverride
                || worker.job is Speaking ==> unchanged
            &&& speak && worker.model && worker.stream && named ==> turn.action == (
            NeuttsActionView::LoadVoice {
                preset: voice_override->0,
                wav: Seq::empty(),
                text: Seq::empty(),
            })
            &&& speak && worker.model && worker.stream && !named ==> turn.action == (
            NeuttsActionView::Speak {
                text,
                backbone: worker.backbone,
                gguf_file: worker.gguf_file,
                voice: worker.voice,
            })
            &&& worker.job is SpeakOverride && turn.action is Speak ==> turn.action->Speak_voice
                == event->voice
        }),
{
}

/// An initialisation loads a model exactly where the worker does not hold the one
/// that it asks for: another repository, and another GGUF file of the same
/// repository, are another model. Loading the model makes it the worker's.
pub proof fn init_loads_another_model(
    state: TtsStateView,
    worker: NeuttsWorkerView,
    cfg: NeuttsRuntimeConfigView,
)
    requires
        worker.job is Idle,
    ensures
        ({
            let init = neutts_turn(
                state,
                worker,
                NeuttsEventView::Command { cmd: NeuttsCmdView::Init { cfg } },
            );
            let loaded = neutts_turn(init.state, init.worker, NeuttsEventView::Loaded);
            &&& init.action is Load <==> !holds_model_of(worker, cfg)
            &&& init.action is Load ==> {
                &&& init.action == (NeuttsActionView::Load {
                    repo: cfg.backbone_repo,
                    gguf_file: cfg.gguf_file,
                    report: true,
                })
                &&& !init.state.neutts_ready
                &&& holds_model_of(loaded.worker, cfg)
                &&& loaded.action == load_voice_of(cfg)
            }
            &&& !(init.action is Load) ==> init.action == load_voice_of(cfg) && holds_model_of(
                init.worker,
                cfg,
            )
        }),
{
}

/// The worker after an initialisation whose loads succeed, the last one with the
/// given voice.
pub open spec fn initialised(
    state: TtsStateView,
    worker: NeuttsWorkerView,
    cfg: NeuttsRuntimeConfigView,
    voice: VoiceRefView,
) -> NeuttsTurn {
    let init = neutts_turn(
        state,
        worker,
        NeuttsEventView::Command { cmd: NeuttsCmdView::Init { cfg } },
    );
    let loaded = if init.action is Load {
        neutts_turn(init.state, init.worker, NeuttsEventView::Loaded)
    } else {
        init
    };
    neutts_turn(loaded.state, loaded.worker, NeuttsEventView::VoiceLoaded { voice })
}

/// After an initialisation that succeeds, the next utterance is spoken by the
/// model and in the voice that it asked for.
pub proof fn speaks_as_initialised(
    state: TtsStateView,
    worker: NeuttsWorkerView,
    cfg: NeuttsRuntimeConfigView,
    voice: VoiceRefView,
    text: Seq<char>,
)
    requires
        worker.job is Idle,
        worker.stream,
    ensures
        ({
            let ready = initialised(state, worker, cfg, voice);
            &&& ready.action == (NeuttsActionView::ReplyInit { result: Ok(()) })
            &&& ready.state.neutts_ready
            &&& ready.worker.job is Idle
            &&& neutts_turn(
                ready.state,
                ready.worker,
                NeuttsEventView::Command {
                    cmd: NeuttsCmdView::Speak { text, voice_override: None },
                },
            ).action == (NeuttsActionView::Speak {
                text,
                backbone: cfg.backbone_repo,
                gguf_file: cfg.gguf_file,
                voice,
            })
        }),
{
}

/// The utterance that the worker speaks by a model, in a voice.
pub open spec fn utterance_of(
    cfg: NeuttsRuntimeConfigView,
    voice: VoiceRefView,
    text: Seq<char>,
) -> Utterance {
    Utterance {
        backbone_repo: cfg.backbone_repo,
        gguf_file: cfg.gguf_file,
        voice_key: voice.key,
        text,
    }
}

/// The path at which the audio of an utterance is looked up.
pub open spec fn looked_up(state: TtsStateView, spoken: NeuttsActionView) -> Seq<char> {
    wav_path(
        state,
        spoken->backbone,
        spoken->Speak_gguf_file,
        spoken->Speak_voice.key,
        spoken->Speak_text,
    )
}

/// Audio of one model is not replayed for another: after an initialisation with
/// another repository or another GGUF file, the same text in the same voice is
/// looked up under another name, whatever happened in between. This is so as
/// long as the digest tells the two utterances apart.
pub proof fn another_model_speaks_anew(
    state: TtsStateView,
    first: NeuttsWorkerView,
    first_cfg: NeuttsRuntimeConfigView,
    later_state: TtsStateView,
    later: NeuttsWorkerView,
    later_cfg: NeuttsRuntimeConfigView,
    voice: VoiceRefView,
    text: Seq<char>,
)
    requires
        first.job is Idle,
        first.stream,
        later.job is Idle,
        later.stream,
        first_cfg.backbone_repo != later_cfg.backbone_repo || first_cfg.gguf_file
            != later_cfg.gguf_file,
        ({
            let a = utterance_of(first_cfg, voice, text).message();
            let b = utterance_of(later_cfg, voice, text).message();
            sha256_digest(a) == sha256_digest(b) ==> a == b
        }),
    ensures
        ({
            let speak = NeuttsEventView::Command {
                cmd: NeuttsCmdView::Speak { text, voice_override: None },
            };
            let a = initialised(state, first, first_cfg, voice);
            let b = initialised(later_state, later, later_cfg, voice);
            let said_a = neutts_turn(a.state, a.worker, speak).action;
            let said_b = neutts_turn(b.state, b.worker, speak).action;
            &&& said_a is Speak
            &&& said_b is Speak
            &&& looked_up(state, said_a) != looked_up(state, said_b)
        }),
{
    speaks_as_initialised(state, first, first_cfg, voice, text);
    speaks_as_initialised(later_state, later, later_cfg, voice, text);
    one_change_changes_path(
        state,
        utterance_of(first_cfg, voice, text),
        utterance_of(later_cfg, voice, text),
    );
}

/// A worker that was initialised, has spoken and is initialised with another GGUF
/// file of the same repository, or with another repository, loads that model and
/// speaks the same text by it, under another name as long as the digest tells the
/// two utterances apart.
pub proof fn another_model_is_loaded_and_speaks(
    state: TtsStateView,
    worker: NeuttsWorkerView,
    first_cfg: NeuttsRuntimeConfigView,
    later_cfg: NeuttsRuntimeConfigView,
    voice: VoiceRefView,
    text: Seq<char>,
)
    requires
        worker.job is Idle,
        worker.stream,
        first_cfg.backbone_repo != later_cfg.backbone_repo || first_cfg.gguf_file
            != later_cfg.gguf_file,
    ensures
        ({
            let speak = NeuttsEventView::Command {
                cmd: NeuttsCmdView::Speak { text, voice_override: None },
            };
            let init = NeuttsEventView::Command { cmd: NeuttsCmdView::Init { cfg: later_cfg } };
            let a = initialised(state, worker, first_cfg, voice);
            let said_a = neutts_turn(a.state, a.worker, speak);
            let spoken = neutts_turn(said_a.state, said_a.worker, NeuttsEventView::Spoken);
            let b = initialised(spoken.state, spoken.worker, later_cfg, voice);
            let said_b = neutts_turn(b.state, b.worker, speak);
            let first_message = utterance_of(first_cfg, voice, text).message();
            let later_message = utterance_of(later_cfg, voice, text).message();
            &&& said_a.action is Speak
            &&& spoken.action is ReplySpoken
            &&& neutts_turn(spoken.state, spoken.worker, init).action == (NeuttsActionView::Load {
                repo: later_cfg.backbone_repo,
                gguf_file: later_cfg.gguf_file,
                report: true,
            })
            &&& said_b.action == (NeuttsActionView::Speak {
                text,
                backbone: later_cfg.backbone_repo,
                gguf_file: later_cfg.gguf_file,
                voice,
            })
            &&& first_message != later_message
            &&& sha256_digest(first_message) != sha256_digest(later_message) ==> looked_up(
                state,
                said_a.action,
            ) != looked_up(state, said_b.action)
        }),
{
    speaks_as_initialised(state, worker, first_cfg, voice, text);
    let speak = NeuttsEventView::Command {
        cmd: NeuttsCmdView::Speak { text, voice_override: None },
    };
    let a = initialised(state, worker, first_cfg, voice);
    let said_a = neutts_turn(a.state, a.worker, speak);
    let spoken = neutts_turn(said_a.state, said_a.worker, NeuttsEventView::Spoken);
    speaks_as_initialised(spoken.state, spoken.worker, later_cfg, voice, text);
    let first = utterance_of(first_cfg, voice, text);
    let later = utterance_of(later_cfg, voice, text);
    if first.message() == later.message() {
        one_change_changes_message(first, later);
    }
    wav_path_names_digest(state, first, later);
}

/// After an unload the worker is as new, but for its audio device; the next
/// utterance loads the model of the current settings.
pub proof fn neutts_reloads(
    state: TtsStateView,
    worker: NeuttsWorkerView,
    text: Seq<char>,
    voice_override: Option<Seq<char>>,
)
    requires
        neutts_in_step(state, worker),
        worker.job is Idle,
    ensures
        ({
            let unloaded = neutts_turn(
                state,
                worker,
                NeuttsEventView::Command { cmd: NeuttsCmdView::Unload },
            );
            let spoken = neutts_turn(
                unloaded.state,
                unloaded.worker,
                NeuttsEventView::Command { cmd: NeuttsCmdView::Speak { text, voice_override } },
            );
            &&& unloaded.worker == empty_worker(worker.stream)
            &&& !unloaded.state.neutts_ready && !unloaded.state.neutts_loading
            &&& spoken.action == (NeuttsActionView::Load {
                repo: state.neutts_cfg.backbone_repo,
                gguf_file: state.neutts_cfg.gguf_file,
                report: false,
            })
        }),
{
}

/// What follows a turn where a load succeeds, a voice is the one that `voices`
/// gives for what was asked, and the audio device can be opened. Speaking and
/// answers are left as they are.
pub open spec fn neutts_succeeds(
    turn: NeuttsTurn,
    voices: spec_fn(Seq<char>, Seq<char>, Seq<char>) -> VoiceRefView,
) -> NeuttsTurn {
    match turn.action {
        NeuttsActionView::Load { .. } => neutts_turn(
            turn.state,
            turn.worker,
            NeuttsEventView::Loaded,
        ),
        NeuttsActionView::LoadVoice { preset, wav, text } => neutts_turn(
            turn.state,
            turn.worker,
            NeuttsEventView::VoiceLoaded { voice: voices(preset, wav, text) },
        ),
        NeuttsActionView::OpenAudio => neutts_turn(
            turn.state,
            turn.worker,
            NeuttsEventView::Opened { stream: true },
        ),
        _ => turn,
    }
}

/// What a worker has come to after a number of such outcomes.
pub open spec fn neutts_run(
    turn: NeuttsTurn,
    voices: spec_fn(Seq<char>, Seq<char>, Seq<char>) -> VoiceRefView,
    n: nat,
) -> NeuttsTurn
    decreases n,
{
    if n == 0 {
        turn
    } else {
        neutts_succeeds(neutts_run(turn, voices, (n - 1) as nat), voices)
    }
}

/// Whether an utterance names one of the presets.
pub open spec fn names_preset(voice_override: Option<Seq<char>>) -> bool {
    voice_override is Some && {
        ||| voice_override->0 == "jo"@
        ||| voice_override->0 == "dave"@
        ||| voice_override->0 == "greta"@
        ||| voice_override->0 == "juliette"@
        ||| voice_override->0 == "mateo"@
    }
}

/// An utterance is spoken with the text of its command, in the preset that the
/// command names, or else in the worker's voice, whether or not model and audio
/// device are there at first. Where the model is missing, that of the current
/// settings is loaded, without reports, and then their voice; then the audio
/// device is opened where it is missing; the named preset is loaded last, just
/// before it speaks, and for this utterance only. The worker ends with the model
/// and the voice that it had, or with those of the settings where it had none.
pub proof fn neutts_says_the_command(
    state: TtsStateView,
    worker: NeuttsWorkerView,
    text: Seq<char>,
    voice_override: Option<Seq<char>>,
    voices: spec_fn(Seq<char>, Seq<char>, Seq<char>) -> VoiceRefView,
)
    requires
        worker.job is Idle,
    ensures
        ({
            let start = neutts_turn(
                state,
                worker,
                NeuttsEventView::Command { cmd: NeuttsCmdView::Speak { text, voice_override } },
            );
            let cfg = state.neutts_cfg;
            let none = Seq::<char>::empty();
            let named = names_preset(voice_override);
            let loads: nat = if worker.model {
                0
            } else {
                2
            };
            let opens: nat = if worker.stream {
                0
            } else {
                1
            };
            let names: nat = if named {
                1
            } else {
                0
            };
            let backbone = if worker.model {
                worker.backbone
            } else {
                cfg.backbone_repo
            };
            let gguf_file = if worker.model {
                worker.gguf_file
            } else {
                cfg.gguf_file
            };
            let own = if worker.model {
                worker.voice
            } else {
                voices(cfg.voice_preset, cfg.ref_wav_path, cfg.ref_text)
            };
            let said = neutts_run(start, voices, loads + opens + names);
            let answered = neutts_turn(said.state, said.worker, NeuttsEventView::Spoken);
            &&& !worker.model ==> start.action == (NeuttsActionView::Load {
                repo: cfg.backbone_repo,
                gguf_file: cfg.gguf_file,
                report: false,
            })
            &&& !worker.model ==> neutts_run(start, voices, 1).action == (
            NeuttsActionView::LoadVoice {
                preset: cfg.voice_preset,
                wav: cfg.ref_wav_path,
                text: cfg.ref_text,
            })
            &&& !worker.stream ==> neutts_run(start, voices, loads).action is OpenAudio
            &&& named ==> neutts_run(start, voices, loads + opens).action == (
            NeuttsActionView::LoadVoice { preset: voice_override->0, wav: none, text: none })
            &&& said.action == (NeuttsActionView::Speak {
                text,
                backbone,
                gguf_file,
                voice: if named {
                    voices(voice_override->0, none, none)
                } else {
                    own
                },
            })
            &&& answered.action is ReplySpoken
            &&& answered.worker == (NeuttsWorkerView {
                model: true,
                backbone,
                gguf_file,
                voice: own,
                stream: true,
                job: NeuttsJobView::Idle,
            })
            &&& answered.state == (TtsStateView {
                neutts_ready: state.neutts_ready || !worker.model,
                ..state
            })
        }),
{
    reveal_with_fuel(neutts_run, 5);
    if voice_override is Some {
        presets_are_these(voice_override->0);
    }
}

/// Whether the worker is at an utterance of `text` with the given override, before
/// the override was looked at.
pub open spec fn neutts_is_at(
    job: NeuttsJobView,
    event: NeuttsEventView,
    text: Seq<char>,
    voice_override: Option<Seq<char>>,
) -> bool {
    ||| event == (NeuttsEventView::Command { cmd: NeuttsCmdView::Speak { text, voice_override } })
    ||| job is SpeakLoad && job->SpeakLoad_text == text && job->SpeakLoad_voice_override
        == voice_override
    ||| job == (NeuttsJobView::SpeakVoice { text, voice_override })
    ||| job == (NeuttsJobView::SpeakOpen { text, voice_override })
}

/// Whatever the outcomes are, an utterance keeps its text and the preset that it
/// names until it is spoken or given up: it is spoken without the preset only
/// where it names none.
pub proof fn neutts_keeps_the_words(
    state: TtsStateView,
    worker: NeuttsWorkerView,
    event: NeuttsEventView,
    text: Seq<char>,
    voice_override: Option<Seq<char>>,
)
    requires
        neutts_expects(worker.job, event),
        neutts_is_at(worker.job, event, text, voice_override),
    ensures
        ({
            let turn = neutts_turn(state, worker, event);
            match turn.action {
                NeuttsActionView::Speak { text: t, backbone, gguf_file, voice } => {
                    &&& t == text
                    &&& !names_preset(voice_override)
                    &&& backbone == turn.worker.backbone && gguf_file == turn.worker.gguf_file
                    &&& voice == turn.worker.voice
                },
                NeuttsActionView::Load { .. } => turn.worker.job is SpeakLoad
                    && turn.worker.job->SpeakLoad_text == text
                    && turn.worker.job->SpeakLoad_voice_override == voice_override,
                NeuttsActionView::LoadVoice { preset, .. } => {
                    ||| turn.worker.job == (NeuttsJobView::SpeakVoice { text, voice_override })
                    ||| names_preset(voice_override) && preset == voice_override->0
                        && turn.worker.job == (NeuttsJobView::SpeakOverride { text })
                },
                NeuttsActionView::OpenAudio => turn.worker.job == (NeuttsJobView::SpeakOpen {
                    text,
                    voice_override,
                }),
                NeuttsActionView::ReplySpoken => event is LoadFailed || !turn.worker.stream
                    || !turn.worker.model,
                _ => false,
            }
        }),
{
    if voice_override is Some {
        presets_are_these(voice_override->0);
    }
}

/// A preset that was loaded for an utterance speaks that utterance, by the
/// worker's model, and the worker's own voice stays.
pub proof fn named_preset_speaks(
    state: TtsStateView,
    worker: NeuttsWorkerView,
    text: Seq<char>,
    voice: VoiceRefView,
)
    requires
        worker.job == (NeuttsJobView::SpeakOverride { text }),
        worker.model,
    ensures
        ({
            let turn = neutts_turn(state, worker, NeuttsEventView::VoiceLoaded { voice });
            &&& turn.state == state
            &&& turn.worker.voice == worker.voice
            &&& worker.stream ==> turn.action == (NeuttsActionView::Speak {
                text,
                backbone: worker.backbone,
                gguf_file: worker.gguf_file,
                voice,
            })
            &&& !worker.stream ==> turn.action is ReplySpoken
        }),
{
}

/// A failed load leaves the worker as it was and is answered; an initialisation
/// hears of it in words and is no longer under way. Without an audio device an
/// utterance without a preset is given up at once, and the device is tried again
/// for the next.
pub proof fn neutts_gives_up(
    state: TtsStateView,
    worker: NeuttsWorkerView,
    error: Seq<char>,
    text: Seq<char>,
)
    ensures
        ({
            let failed = neutts_turn(state, worker, NeuttsEventView::LoadFailed { error });
            let idle = NeuttsWorkerView { job: NeuttsJobView::Idle, ..worker };
            &&& worker.job is InitLoad ==> {
                &&& failed.action == (NeuttsActionView::ReplyInit {
                    result: Err("neutts: backbone load failed: "@ + error),
                })
                &&& failed.state == (TtsStateView { neutts_loading: false, ..state })
                &&& failed.worker == idle
            }
            &&& worker.job is SpeakLoad ==> failed.action is ReplySpoken && failed.state == state
                && failed.worker == idle
            &&& worker.job == (NeuttsJobView::SpeakOpen { text, voice_override: None }) ==> {
                let closed = neutts_turn(
                    state,
                    worker,
                    NeuttsEventView::Opened { stream: false },
                );
                &&& closed.action is ReplySpoken
                &&& closed.state == state
                &&& closed.worker == (NeuttsWorkerView { stream: false, ..idle })
            }
        }),
{
}

/// An initialisation is announced as under way until it is answered. It loads the
/// model of its settings with reports, unless the worker holds that very model,
/// and always the voice of its settings, which then is the worker's; answered
/// with success, the engine is ready.
pub proof fn neutts_initialises(
    state: TtsStateView,
    worker: NeuttsWorkerView,
    cfg: NeuttsRuntimeConfigView,
    voice: VoiceRefView,
)
    requires
        worker.job is Idle,
    ensures
        ({
            let init = neutts_turn(
                state,
                worker,
                NeuttsEventView::Command { cmd: NeuttsCmdView::Init { cfg } },
            );
            let held = worker.model && worker.backbone == cfg.backbone_repo && worker.gguf_file
                == cfg.gguf_file;
            let with_model = if held {
                init
            } else {
                neutts_turn(init.state, init.worker, NeuttsEventView::Loaded)
            };
            let done = neutts_turn(
                with_model.state,
                with_model.worker,
                NeuttsEventView::VoiceLoaded { voice },
            );
            &&& init.state.neutts_loading && with_model.state.neutts_loading
            &&& !held ==> init.action == (NeuttsActionView::Load {
                repo: cfg.backbone_repo,
                gguf_file: cfg.gguf_file,
                report: true,
            }) && !init.state.neutts_ready
            &&& held ==> init.state.neutts_ready == state.neutts_ready
            &&& with_model.action == (NeuttsActionView::LoadVoice {
                preset: cfg.voice_preset,
                wav: cfg.ref_wav_path,
                text: cfg.ref_text,
            })
            &&& done.action == (NeuttsActionView::ReplyInit { result: Ok(()) })
            &&& done.worker == (NeuttsWorkerView {
                model: true,
                backbone: cfg.backbone_repo,
                gguf_file: cfg.gguf_file,
                voice,
                ..worker
            })
            &&& done.state == (TtsStateView {
                neutts_loading: false,
                neutts_ready: true,
                ..state
            })
        }),
{
}

/// An unload leaves neither model nor voice, only the audio device, and withdraws
/// that the engine is ready or loading.
pub proof fn neutts_unloads(state: TtsStateView, worker: NeuttsWorkerView)
    requires
        worker.job is Idle,
    ensures
        ({
            let turn = neutts_turn(
                state,
                worker,
                NeuttsEventView::Command { cmd: NeuttsCmdView::Unload },
            );
            let none = Seq::<char>::empty();
            &&& turn.action is ReplyUnloaded
            &&& turn.worker == (NeuttsWorkerView {
                model: false,
                backbone: none,
                gguf_file: None,
                voice: VoiceRefView { codes: Seq::empty(), text: none, key: "default"@ },
                stream: worker.stream,
                job: NeuttsJobView::Idle,
            })
            &&& turn.state == (TtsStateView {
                neutts_loading: false,
                neutts_ready: false,
                ..state
            })
        }),
{
}

/// The views of the worker, its events and its actions show every part as it is.
pub proof fn neutts_is_seen_in_full(
    worker: NeuttsWorker,
    cmd: NeuttsCmd,
    cfg: NeuttsRuntimeConfig,
    voice: VoiceRef,
    a: String,
    b: String,
    c: String,
    name: Option<String>,
    flag: bool,
)
    ensures
        worker@.model == worker.model && worker@.stream == worker.stream,
        worker@.backbone == worker.backbone@ && worker@.gguf_file == opt_text(worker.gguf_file),
        worker@.voice == worker.voice@ && worker@.job == worker.job@,
        (NeuttsCmd::Init { cfg })@ == (NeuttsCmdView::Init { cfg: cfg@ }),
        (NeuttsCmd::Speak { text: a, voice_override: name })@ == (NeuttsCmdView::Speak {
            text: a@,
            voice_override: opt_text(name),
        }),
        NeuttsCmd::Unload@ is Unload,
        NeuttsJob::Idle@ is Idle && NeuttsJob::InitVoice@ is InitVoice,
        NeuttsJob::Speaking@ is Speaking,
        (NeuttsJob::InitLoad { cfg })@ == (NeuttsJobView::InitLoad { cfg: cfg@ }),
        (NeuttsJob::SpeakLoad { cfg, text: a, voice_override: name })@ == (
        NeuttsJobView::SpeakLoad { cfg: cfg@, text: a@, voice_override: opt_text(name) }),
        (NeuttsJob::SpeakVoice { text: a, voice_override: name })@ == (
        NeuttsJobView::SpeakVoice { text: a@, voice_override: opt_text(name) }),
        (NeuttsJob::SpeakOpen { text: a, voice_override: name })@ == (NeuttsJobView::SpeakOpen {
            text: a@,
            voice_override: opt_text(name),
        }),
        (NeuttsJob::SpeakOverride { text: a })@ == (NeuttsJobView::SpeakOverride { text: a@ }),
        (NeuttsEvent::Command { cmd })@ == (NeuttsEventView::Command { cmd: cmd@ }),
        NeuttsEvent::Loaded@ is Loaded && NeuttsEvent::Spoken@ is Spoken,
        (NeuttsEvent::LoadFailed { error: a })@ == (NeuttsEventView::LoadFailed { error: a@ }),
        (NeuttsEvent::VoiceLoaded { voice })@ == (NeuttsEventView::VoiceLoaded { voice: voice@ }),
        (NeuttsEvent::Opened { stream: flag })@ == (NeuttsEventView::Opened { stream: flag }),
        (NeuttsAction::Load { repo: a, gguf_file: name, report: flag })@ == (
        NeuttsActionView::Load { repo: a@, gguf_file: opt_text(name), report: flag }),
        (NeuttsAction::LoadVoice { preset: a, wav: b, text: c })@ == (
        NeuttsActionView::LoadVoice { preset: a@, wav: b@, text: c@ }),
        NeuttsAction::OpenAudio@ is OpenAudio,
        (NeuttsAction::Speak { text: a, backbone: b, gguf_file: name, voice })@ == (
        NeuttsActionView::Speak {
            text: a@,
            backbone: b@,
            gguf_file: opt_text(name),
            voice: voice@,
        }),
        (NeuttsAction::ReplyInit { result: Ok(()) })@ == (NeuttsActionView::ReplyInit {
            result: Ok(()),
        }),
        (NeuttsAction::ReplyInit { result: Err(a) })@ == (NeuttsActionView::ReplyInit {
            result: Err(a@),
        }),
        NeuttsAction::ReplySpoken@ is ReplySpoken,
        NeuttsAction::ReplyUnloaded@ is ReplyUnloaded,
{
}

/// Every outcome of an action can be handed to the worker, and every command once
/// it has answered.
pub proof fn neutts_takes_every_outcome(
    state: TtsStateView,
    worker: NeuttsWorkerView,
    event: NeuttsEventView,
    voice: VoiceRefView,
    error: Seq<char>,
    stream: bool,
    cmd: NeuttsCmdView,
)
    requires
        neutts_expects(worker.job, event),
    ensures
        ({
            let turn = neutts_turn(state, worker, event);
            let job = turn.worker.job;
            match turn.action {
                NeuttsActionView::Load { .. } => {
                    &&& neutts_expects(job, NeuttsEventView::Loaded)
                    &&& neutts_expects(job, NeuttsEventView::LoadFailed { error })
                },
                NeuttsActionView::LoadVoice { .. } => neutts_expects(
                    job,
                    NeuttsEventView::VoiceLoaded { voice },
                ),
                NeuttsActionView::OpenAudio => neutts_expects(
                    job,
                    NeuttsEventView::Opened { stream },
                ),
                NeuttsActionView::Speak { .. } => neutts_expects(job, NeuttsEventView::Spoken),
                _ => neutts_expects(job, NeuttsEventView::Command { cmd }),
            }
        }),
        neutts_expects(NeuttsJobView::Idle, NeuttsEventView::Command { cmd }),
{
}

/// A new worker is idle and holds nothing but the audio device, if it could be
/// opened: no model, and no voice but the model's own.
pub proof fn new_worker_is_bare(stream: bool)
    ensures
        ({
            let worker = empty_worker(stream);
            &&& !worker.model && worker.stream == stream && worker.job is Idle
            &&& worker.backbone.len() == 0 && worker.gguf_file is None
            &&& worker.voice.codes.len() == 0 && worker.voice.text.len() == 0
            &&& worker.voice.key == "default"@
        }),
{
}

} // verus!
