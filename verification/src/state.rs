//! What the service remembers between requests, and the settings that change it.

use vstd::prelude::*;
use vstd::string::*;

use crate::text::same_text;

verus! {

/// The KittenTTS voice that speaks when nobody chose another.
pub const VOICE_DEFAULT: &'static str = "Jasper";

/// The engines that this build carries.
#[derive(Clone, Copy, Debug, PartialEq, Eq, Structural)]
pub struct Backends {
    pub kitten: bool,
    pub neutts: bool,
}

/// The NeuTTS part of the user's settings.
#[derive(Debug, PartialEq, Eq)]
pub struct NeuttsConfig {
    pub enabled: bool,
    pub backbone_repo: String,
    /// The empty text stands for "any GGUF file of the repository".
    pub gguf_file: String,
    pub voice_preset: String,
    pub ref_wav_path: String,
    pub ref_text: String,
}

/// The settings that the NeuTTS engine loads a model and a voice from.
#[derive(Debug, PartialEq, Eq)]
pub struct NeuttsRuntimeConfig {
    pub backbone_repo: String,
    pub gguf_file: Option<String>,
    pub voice_preset: String,
    pub ref_wav_path: String,
    pub ref_text: String,
}

/// A [`NeuttsRuntimeConfig`] as mathematical text.
#[verifier::ext_equal]
pub struct NeuttsRuntimeConfigView {
    pub backbone_repo: Seq<char>,
    pub gguf_file: Option<Seq<char>>,
    pub voice_preset: Seq<char>,
    pub ref_wav_path: Seq<char>,
    pub ref_text: Seq<char>,
}

/// The characters of a text that may be missing.
pub open spec fn opt_text(text: Option<String>) -> Option<Seq<char>> {
    match text {
        Some(t) => Some(t@),
        None => None,
    }
}

/// The characters of each text of a list.
pub open spec fn texts(list: Seq<String>) -> Seq<Seq<char>> {
    list.map_values(|t: String| t@)
}

/// The characters of each text of a list that may be missing.
pub open spec fn opt_texts(list: Option<Vec<String>>) -> Option<Seq<Seq<char>>> {
    match list {
        Some(l) => Some(texts(l@)),
        None => None,
    }
}

impl View for NeuttsRuntimeConfig {
    type V = NeuttsRuntimeConfigView;

    open spec fn view(&self) -> NeuttsRuntimeConfigView {
        NeuttsRuntimeConfigView {
            backbone_repo: self.backbone_repo@,
            gguf_file: opt_text(self.gguf_file),
            voice_preset: self.voice_preset@,
            ref_wav_path: self.ref_wav_path@,
            ref_text: self.ref_text@,
        }
    }
}

/// Copies a text that may be missing.
pub fn clone_opt(text: &Option<String>) -> (copy: Option<String>)
    ensures
        copy == *text,
{
    match text {
        Some(t) => Some(t.clone()),
        None => None,
    }
}

/// Whether two texts that may be missing are the same, or both missing.
pub fn same_opt(a: &Option<String>, b: &Option<String>) -> (same: bool)
    ensures
        same == (opt_text(*a) == opt_text(*b)),
{
    match (a, b) {
        (Some(x), Some(y)) => same_text(x.as_str(), y.as_str()),
        (None, None) => true,
        (_, _) => false,
    }
}

/// Copies a list of texts.
pub fn clone_texts(list: &Vec<String>) -> (copy: Vec<String>)
    ensures
        copy@ == list@,
{
    let mut copy: Vec<String> = Vec::new();
    let mut i: usize = 0;
    while i < list.len()
        invariant
            i <= list@.len(),
            copy@ == list@.take(i as int),
        decreases list@.len() - i,
    {
        copy.push(list[i].clone());
        i = i + 1;
        assert(copy@ =~= list@.take(i as int));
    }
    assert(list@.take(i as int) =~= list@);
    copy
}

impl Clone for NeuttsRuntimeConfig {
    fn clone(&self) -> (copy: Self)
        ensures
            copy == *self,
    {
        NeuttsRuntimeConfig {
            backbone_repo: self.backbone_repo.clone(),
            gguf_file: clone_opt(&self.gguf_file),
            voice_preset: self.voice_preset.clone(),
            ref_wav_path: self.ref_wav_path.clone(),
            ref_text: self.ref_text.clone(),
        }
    }
}

/// The state that commands and workers share.
#[derive(Debug, PartialEq, Eq)]
pub struct TtsState {
    pub backends: Backends,
    /// The data directory, once registered.
    pub skill_dir: Option<String>,
    pub logging: bool,
    /// Whether the user chose NeuTTS over KittenTTS.
    pub neutts_enabled: bool,
    /// The KittenTTS voices, once known.
    pub voices: Option<Vec<String>>,
    pub kitten_loaded: bool,
    /// The KittenTTS voice for requests that name none.
    pub active_voice: String,
    pub neutts_loading: bool,
    pub neutts_ready: bool,
    pub neutts_cfg: NeuttsRuntimeConfig,
}

/// A [`TtsState`] as mathematical text and flags.
#[verifier::ext_equal]
pub struct TtsStateView {
    pub backends: Backends,
    pub skill_dir: Option<Seq<char>>,
    pub logging: bool,
    pub neutts_enabled: bool,
    pub voices: Option<Seq<Seq<char>>>,
    pub kitten_loaded: bool,
    pub active_voice: Seq<char>,
    pub neutts_loading: bool,
    pub neutts_ready: bool,
    pub neutts_cfg: NeuttsRuntimeConfigView,
}

impl View for TtsState {
    type V = TtsStateView;

    open spec fn view(&self) -> TtsStateView {
        TtsStateView {
            backends: self.backends,
            skill_dir: opt_text(self.skill_dir),
            logging: self.logging,
            neutts_enabled: self.neutts_enabled,
            voices: opt_texts(self.voices),
            kitten_loaded: self.kitten_loaded,
            active_voice: self.active_voice@,
            neutts_loading: self.neutts_loading,
            neutts_ready: self.neutts_ready,
            neutts_cfg: self.neutts_cfg@,
        }
    }
}

/// The NeuTTS settings before any were applied.
pub open spec fn initial_neutts_cfg() -> NeuttsRuntimeConfigView {
    NeuttsRuntimeConfigView {
        backbone_repo: "neuphonic/neutts-nano-q4-gguf"@,
        gguf_file: None,
        voice_preset: "jo"@,
        ref_wav_path: Seq::empty(),
        ref_text: Seq::empty(),
    }
}

/// The shared state at start-up.
pub open spec fn initial_state(backends: Backends) -> TtsStateView {
    TtsStateView {
        backends,
        skill_dir: None,
        logging: false,
        neutts_enabled: false,
        voices: None,
        kitten_loaded: false,
        active_voice: VOICE_DEFAULT@,
        neutts_loading: false,
        neutts_ready: false,
        neutts_cfg: initial_neutts_cfg(),
    }
}

impl TtsState {
    /// The state of a service that has served nothing yet.
    pub fn new(backends: Backends) -> (state: TtsState)
        ensures
            state@ == initial_state(backends),
    {
        TtsState {
            backends,
            skill_dir: None,
            logging: false,
            neutts_enabled: false,
            voices: None,
            kitten_loaded: false,
            active_voice: VOICE_DEFAULT.to_owned(),
            neutts_loading: false,
            neutts_ready: false,
            neutts_cfg: NeuttsRuntimeConfig {
                backbone_repo: "neuphonic/neutts-nano-q4-gguf".to_owned(),
                gguf_file: None,
                voice_preset: "jo".to_owned(),
                ref_wav_path: String::new(),
                ref_text: String::new(),
            },
        }
    }
}

/// Turns the verbose log on or off.
pub fn set_logging(state: &mut TtsState, enabled: bool)
    ensures
        final(state)@ == (TtsStateView { logging: enabled, ..old(state)@ }),
{
    state.logging = enabled;
}

/// The line that a verbose message writes, if the verbose log is on.
pub open spec fn log_line(state: TtsStateView, msg: Seq<char>) -> Option<Seq<char>> {
    if state.logging {
        Some("[tts] "@ + msg)
    } else {
        None
    }
}

/// The line that a verbose message writes, if the verbose log is on.
pub fn tts_log(state: &TtsState, msg: &str) -> (line: Option<String>)
    ensures
        opt_text(line) == log_line(state@, msg@),
{
    if state.logging {
        Some("[tts] ".to_owned().concat(msg))
    } else {
        None
    }
}

/// Whether NeuTTS serves requests: always where it is the only engine, never
/// where it is missing, and as the user chose where both are there.
pub open spec fn neutts_active(state: TtsStateView) -> bool {
    state.backends.neutts && (state.backends.kitten ==> state.neutts_enabled)
}

/// Picks the engine for the current request: `true` for NeuTTS.
pub fn use_neutts(state: &TtsState) -> (neutts: bool)
    ensures
        neutts == neutts_active(state@),
{
    if state.backends.neutts && state.backends.kitten {
        return state.neutts_enabled;
    }
    state.backends.neutts
}

/// The engine settings that user settings stand for.
pub open spec fn runtime_cfg(cfg: NeuttsConfig) -> NeuttsRuntimeConfigView {
    NeuttsRuntimeConfigView {
        backbone_repo: cfg.backbone_repo@,
        gguf_file: if cfg.gguf_file@.len() == 0 {
            None
        } else {
            Some(cfg.gguf_file@)
        },
        voice_preset: cfg.voice_preset@,
        ref_wav_path: cfg.ref_wav_path@,
        ref_text: cfg.ref_text@,
    }
}

/// The shared state after user settings were applied to it.
pub open spec fn with_config(state: TtsStateView, cfg: NeuttsConfig) -> TtsStateView {
    if state.backends.neutts {
        TtsStateView {
            neutts_cfg: runtime_cfg(cfg),
            neutts_enabled: if state.backends.kitten {
                cfg.enabled
            } else {
                state.neutts_enabled
            },
            neutts_ready: state.neutts_ready && !cfg.enabled,
            ..state
        }
    } else {
        state
    }
}

/// Applies the user's NeuTTS settings. An engine that was ready and stays
/// enabled is initialised anew on the next request for it. Without NeuTTS in
/// the build nothing changes.
pub fn neutts_apply_config(state: &mut TtsState, cfg: &NeuttsConfig)
    ensures
        final(state)@ == with_config(old(state)@, *cfg),
{
    if state.backends.neutts {
        let was_ready = state.neutts_ready;
        state.neutts_cfg =
        NeuttsRuntimeConfig {
            backbone_repo: cfg.backbone_repo.clone(),
            gguf_file: if cfg.gguf_file.as_str().is_empty() {
                None
            } else {
                Some(cfg.gguf_file.clone())
            },
            voice_preset: cfg.voice_preset.clone(),
            ref_wav_path: cfg.ref_wav_path.clone(),
            ref_text: cfg.ref_text.clone(),
        };
        if state.backends.kitten {
            state.neutts_enabled = cfg.enabled;
        }
        if cfg.enabled && was_ready {
            state.neutts_ready = false;
        }
    }
}

/// The active KittenTTS voice.
pub fn get_voice(state: &TtsState) -> (voice: String)
    ensures
        voice@ == state@.active_voice,
{
    state.active_voice.clone()
}

/// Makes `voice` the active KittenTTS voice.
pub fn set_voice_inner(state: &mut TtsState, voice: String)
    ensures
        final(state)@ == (TtsStateView { active_voice: voice@, ..old(state)@ }),
{
    state.active_voice = voice;
}

/// Lists of texts are seen in full and in order, and a missing text is told from
/// the empty one.
pub proof fn texts_are_seen_in_full(list: Vec<String>, text: String)
    ensures
        texts(list@).len() == list@.len(),
        forall|i: int| 0 <= i < list@.len() ==> #[trigger] texts(list@)[i] == list@[i]@,
        opt_texts(Some(list)) == Some(texts(list@)),
        opt_texts(None) is None,
        opt_text(Some(text)) == Some(text@),
        opt_text(None) is None,
{
}

/// The views of settings and state show every part as it is.
pub proof fn state_is_seen_in_full(state: TtsState, cfg: NeuttsRuntimeConfig)
    ensures
        cfg@.backbone_repo == cfg.backbone_repo@,
        cfg.gguf_file is None <==> cfg@.gguf_file is None,
        cfg.gguf_file is Some ==> cfg@.gguf_file == Some(cfg.gguf_file->0@),
        cfg@.voice_preset == cfg.voice_preset@,
        cfg@.ref_wav_path == cfg.ref_wav_path@,
        cfg@.ref_text == cfg.ref_text@,
        state@.backends == state.backends,
        state@.skill_dir is Some <==> state.skill_dir is Some,
        state.skill_dir is Some ==> state@.skill_dir == Some(state.skill_dir->0@),
        state@.logging == state.logging,
        state@.neutts_enabled == state.neutts_enabled,
        state@.voices is Some <==> state.voices is Some,
        state.voices is Some ==> state@.voices->0 == texts(state.voices->0@),
        state@.kitten_loaded == state.kitten_loaded,
        state@.active_voice == state.active_voice@,
        state@.neutts_loading == state.neutts_loading,
        state@.neutts_ready == state.neutts_ready,
        state@.neutts_cfg == state.neutts_cfg@,
{
}

/// A new service has no data directory, no log, no voices and no model; KittenTTS
/// speaks as Jasper, and NeuTTS is set to the small model with the preset `jo`.
pub proof fn service_starts_plain(backends: Backends)
    ensures
        ({
            let start = initial_state(backends);
            &&& start.backends == backends
            &&& start.skill_dir is None
            &&& start.voices is None
            &&& !start.logging && !start.neutts_enabled
            &&& !start.kitten_loaded && !start.neutts_loading && !start.neutts_ready
            &&& start.active_voice == "Jasper"@
            &&& start.neutts_cfg.backbone_repo == "neuphonic/neutts-nano-q4-gguf"@
            &&& start.neutts_cfg.gguf_file is None
            &&& start.neutts_cfg.voice_preset == "jo"@
            &&& start.neutts_cfg.ref_wav_path.len() == 0
            &&& start.neutts_cfg.ref_text.len() == 0
        }),
{
}

/// Where both engines are there the user's choice decides; where one is there it
/// serves; NeuTTS never serves where it is missing.
pub proof fn routing_follows_build_and_choice(state: TtsStateView)
    ensures
        state.backends.kitten && state.backends.neutts ==> neutts_active(state)
            == state.neutts_enabled,
        state.backends.neutts && !state.backends.kitten ==> neutts_active(state),
        !state.backends.neutts ==> !neutts_active(state),
{
}

/// Applied settings are held word for word, the empty file name standing for
/// none. They change the choice of engine only where there is one, withdraw that
/// the engine is ready only where they enable it, and touch nothing else.
pub proof fn settings_are_held(state: TtsStateView, cfg: NeuttsConfig)
    requires
        state.backends.neutts,
    ensures
        ({
            let after = with_config(state, cfg);
            &&& after.neutts_cfg.backbone_repo == cfg.backbone_repo@
            &&& after.neutts_cfg.voice_preset == cfg.voice_preset@
            &&& after.neutts_cfg.ref_wav_path == cfg.ref_wav_path@
            &&& after.neutts_cfg.ref_text == cfg.ref_text@
            &&& cfg.gguf_file@.len() > 0 ==> after.neutts_cfg.gguf_file == Some(cfg.gguf_file@)
            &&& cfg.gguf_file@.len() == 0 ==> after.neutts_cfg.gguf_file is None
            &&& state.backends.kitten ==> after.neutts_enabled == cfg.enabled
            &&& !state.backends.kitten ==> after.neutts_enabled == state.neutts_enabled
            &&& cfg.enabled ==> !after.neutts_ready
            &&& !cfg.enabled ==> after.neutts_ready == state.neutts_ready
            &&& after.backends == state.backends
            &&& after.skill_dir == state.skill_dir
            &&& after.logging == state.logging
            &&& after.voices == state.voices
            &&& after.kitten_loaded == state.kitten_loaded
            &&& after.active_voice == state.active_voice
            &&& after.neutts_loading == state.neutts_loading
        }),
{
}

/// Without NeuTTS in the build, settings for it change nothing.
pub proof fn settings_without_engine_change_nothing(state: TtsStateView, cfg: NeuttsConfig)
    requires
        !state.backends.neutts,
    ensures
        with_config(state, cfg) == state,
{
}

/// Only the settings that were applied last count for what is loaded and which
/// engine serves.
pub proof fn last_settings_count(state: TtsStateView, first: NeuttsConfig, last: NeuttsConfig)
    ensures
        ({
            let twice = with_config(with_config(state, first), last);
            let once = with_config(state, last);
            &&& twice.neutts_cfg == once.neutts_cfg
            &&& twice.neutts_enabled == once.neutts_enabled
            &&& neutts_active(twice) == neutts_active(once)
        }),
{
}

/// The verbose log writes nothing while it is off, and every message in full,
/// behind a tag, while it is on.
pub proof fn log_tells_in_full(state: TtsStateView, msg: Seq<char>)
    ensures
        !state.logging ==> log_line(state, msg) is None,
        state.logging ==> log_line(state, msg) is Some && log_line(state, msg)->0.take(6)
            == "[tts] "@ && log_line(state, msg)->0.skip(6) == msg,
{
    reveal_strlit("[tts] ");
    assert(("[tts] "@ + msg).take(6) =~= "[tts] "@);
    assert(("[tts] "@ + msg).skip(6) =~= msg);
}

} // verus!
