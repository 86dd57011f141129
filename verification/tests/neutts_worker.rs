use skill_tts::neutts_worker::{NeuttsAction, NeuttsCmd, NeuttsEvent, NeuttsJob, NeuttsWorker};
use skill_tts::reference::VoiceRef;
use skill_tts::state::{neutts_apply_config, Backends, NeuttsConfig, NeuttsRuntimeConfig, TtsState};
use skill_tts::wav::wav_cache_path;

fn service() -> TtsState {
    TtsState::new(Backends { kitten: true, neutts: true })
}

fn cfg(repo: &str) -> NeuttsRuntimeConfig {
    NeuttsRuntimeConfig {
        backbone_repo: repo.to_string(),
        gguf_file: Some("f.gguf".to_string()),
        voice_preset: "greta".to_string(),
        ref_wav_path: "/w".to_string(),
        ref_text: "t".to_string(),
    }
}

fn voice(key: &str) -> VoiceRef {
    VoiceRef { codes: vec![1], text: "words".to_string(), key: key.to_string() }
}

fn own_voice() -> VoiceRef {
    VoiceRef { codes: vec![], text: String::new(), key: "default".to_string() }
}

fn init(repo: &str) -> NeuttsEvent {
    NeuttsEvent::Command { cmd: NeuttsCmd::Init { cfg: cfg(repo) } }
}

fn speak(voice_override: Option<&str>) -> NeuttsEvent {
    let voice_override = voice_override.map(|v| v.to_string());
    NeuttsEvent::Command { cmd: NeuttsCmd::Speak { text: "Hi".to_string(), voice_override } }
}

fn voice_loaded(key: &str) -> NeuttsEvent {
    NeuttsEvent::VoiceLoaded { voice: voice(key) }
}

fn load(repo: &str, gguf: Option<&str>, report: bool) -> NeuttsAction {
    NeuttsAction::Load {
        repo: repo.to_string(),
        gguf_file: gguf.map(|g| g.to_string()),
        report,
    }
}

fn load_voice(preset: &str, wav: &str, text: &str) -> NeuttsAction {
    NeuttsAction::LoadVoice {
        preset: preset.to_string(),
        wav: wav.to_string(),
        text: text.to_string(),
    }
}

fn say(backbone: &str, gguf: Option<&str>, voice: VoiceRef) -> NeuttsAction {
    NeuttsAction::Speak {
        text: "Hi".to_string(),
        backbone: backbone.to_string(),
        gguf_file: gguf.map(|g| g.to_string()),
        voice,
    }
}

fn ready(repo: &str, stream: bool) -> (TtsState, NeuttsWorker) {
    let mut state = service();
    let mut worker = NeuttsWorker::new(stream);
    worker.step(&mut state, init(repo));
    worker.step(&mut state, NeuttsEvent::Loaded);
    worker.step(&mut state, voice_loaded("greta"));
    (state, worker)
}

#[test]
fn neutts_init_loads_model_and_voice() {
    let mut state = service();
    let mut worker = NeuttsWorker::new(true);
    assert_eq!(worker.step(&mut state, init("o/r")), load("o/r", Some("f.gguf"), true));
    assert!(state.neutts_loading && !state.neutts_ready);
    assert_eq!(worker.step(&mut state, NeuttsEvent::Loaded), load_voice("greta", "/w", "t"));
    assert!(state.neutts_loading && !state.neutts_ready);
    assert_eq!(
        worker.step(&mut state, voice_loaded("greta")),
        NeuttsAction::ReplyInit { result: Ok(()) },
    );
    assert!(!state.neutts_loading && state.neutts_ready);
    assert_eq!((worker.backbone.as_str(), &worker.voice), ("o/r", &voice("greta")));
}

#[test]
fn neutts_init_with_same_model_loads_voice_only() {
    let (mut state, mut worker) = ready("o/r", true);
    assert_eq!(worker.step(&mut state, init("o/r")), load_voice("greta", "/w", "t"));
    assert!(state.neutts_ready && state.neutts_loading);
    worker.step(&mut state, voice_loaded("custom-x"));
    assert_eq!(worker.voice, voice("custom-x"));
}

#[test]
fn neutts_init_with_another_file_loads_again() {
    for gguf in [Some("g.gguf"), None] {
        let (mut state, mut worker) = ready("o/r", true);
        assert_eq!(worker.step(&mut state, speak(None)), say("o/r", Some("f.gguf"), voice("greta")));
        worker.step(&mut state, NeuttsEvent::Spoken);
        let mut other = cfg("o/r");
        other.gguf_file = gguf.map(|g| g.to_string());
        let cmd = NeuttsCmd::Init { cfg: other };
        assert_eq!(
            worker.step(&mut state, NeuttsEvent::Command { cmd }),
            load("o/r", gguf, true),
        );
        assert!(!state.neutts_ready);
        worker.step(&mut state, NeuttsEvent::Loaded);
        worker.step(&mut state, voice_loaded("greta"));
        assert_eq!(worker.step(&mut state, speak(None)), say("o/r", gguf, voice("greta")));
    }
}

#[test]
fn another_file_speaks_under_another_name() {
    let (mut state, mut worker) = ready("o/r", true);
    let mut paths = Vec::new();
    for gguf in ["f.gguf", "g.gguf"] {
        let mut wanted = cfg("o/r");
        wanted.gguf_file = Some(gguf.to_string());
        let cmd = NeuttsCmd::Init { cfg: wanted };
        if let NeuttsAction::Load { .. } = worker.step(&mut state, NeuttsEvent::Command { cmd }) {
            worker.step(&mut state, NeuttsEvent::Loaded);
        }
        worker.step(&mut state, voice_loaded("greta"));
        match worker.step(&mut state, speak(None)) {
            NeuttsAction::Speak { text, backbone, gguf_file, voice } => {
                paths.push(wav_cache_path(&state, &backbone, &gguf_file, &voice.key, &text))
            }
            other => panic!("not spoken: {other:?}"),
        }
        worker.step(&mut state, NeuttsEvent::Spoken);
    }
    assert_ne!(paths[0], paths[1]);
}

#[test]
fn neutts_init_failure_keeps_old_model() {
    let (mut state, mut worker) = ready("o/r", true);
    assert_eq!(worker.step(&mut state, init("o/new")), load("o/new", Some("f.gguf"), true));
    assert_eq!(
        worker.step(&mut state, NeuttsEvent::LoadFailed { error: "e".to_string() }),
        NeuttsAction::ReplyInit { result: Err("neutts: backbone load failed: e".to_string()) },
    );
    assert!(!state.neutts_loading && !state.neutts_ready && worker.model);
    assert_eq!((worker.backbone.as_str(), &worker.voice), ("o/r", &voice("greta")));
    assert_eq!(worker.gguf_file, Some("f.gguf".to_string()));
}

#[test]
fn neutts_speaks_lazily_with_settings() {
    let mut state = service();
    let mut worker = NeuttsWorker::new(false);
    let repo = "neuphonic/neutts-nano-q4-gguf";
    assert_eq!(worker.step(&mut state, speak(None)), load(repo, None, false));
    assert!(!state.neutts_loading);
    assert_eq!(worker.step(&mut state, NeuttsEvent::Loaded), load_voice("jo", "", ""));
    assert_eq!(worker.step(&mut state, voice_loaded("jo")), NeuttsAction::OpenAudio);
    assert!(state.neutts_ready);
    assert_eq!(
        worker.step(&mut state, NeuttsEvent::Opened { stream: true }),
        say(repo, None, voice("jo")),
    );
    assert_eq!(worker.step(&mut state, NeuttsEvent::Spoken), NeuttsAction::ReplySpoken);
}

#[test]
fn neutts_lazy_load_failure_skips() {
    let mut state = service();
    let mut worker = NeuttsWorker::new(true);
    worker.step(&mut state, speak(Some("jo")));
    assert_eq!(
        worker.step(&mut state, NeuttsEvent::LoadFailed { error: "e".to_string() }),
        NeuttsAction::ReplySpoken,
    );
    assert_eq!(worker, NeuttsWorker::new(true));
}

#[test]
fn neutts_override_is_for_one_utterance() {
    let (mut state, mut worker) = ready("o/r", true);
    assert_eq!(worker.step(&mut state, speak(Some("dave"))), load_voice("dave", "", ""));
    assert_eq!(worker.step(&mut state, voice_loaded("dave")), say("o/r", Some("f.gguf"), voice("dave")));
    assert_eq!(worker.voice, voice("greta"));
    worker.step(&mut state, NeuttsEvent::Spoken);
    assert_eq!(worker.step(&mut state, speak(None)), say("o/r", Some("f.gguf"), voice("greta")));
}

#[test]
fn neutts_override_must_name_a_preset() {
    for name in ["", "Jasper", "default"] {
        let (mut state, mut worker) = ready("o/r", true);
        assert_eq!(worker.step(&mut state, speak(Some(name))), say("o/r", Some("f.gguf"), voice("greta")));
    }
}

#[test]
fn neutts_without_audio_skips() {
    let (mut state, mut worker) = ready("o/r", false);
    assert_eq!(worker.step(&mut state, speak(None)), NeuttsAction::OpenAudio);
    assert_eq!(
        worker.step(&mut state, NeuttsEvent::Opened { stream: false }),
        NeuttsAction::ReplySpoken,
    );
    worker.step(&mut state, speak(Some("jo")));
    assert_eq!(
        worker.step(&mut state, NeuttsEvent::Opened { stream: false }),
        load_voice("jo", "", ""),
    );
    assert_eq!(worker.step(&mut state, voice_loaded("jo")), NeuttsAction::ReplySpoken);
    assert_eq!(worker.job, NeuttsJob::Idle);
}

#[test]
fn neutts_unload_forgets_model_and_voice() {
    let (mut state, mut worker) = ready("o/r", true);
    let unload = NeuttsEvent::Command { cmd: NeuttsCmd::Unload };
    assert_eq!(worker.step(&mut state, unload), NeuttsAction::ReplyUnloaded);
    assert!(!state.neutts_ready && !state.neutts_loading);
    assert_eq!(worker, NeuttsWorker::new(true));
    assert_eq!(worker.voice, own_voice());
}

#[test]
fn settings_apply_to_the_next_lazy_load() {
    let mut state = service();
    let mut worker = NeuttsWorker::new(true);
    neutts_apply_config(
        &mut state,
        &NeuttsConfig {
            enabled: true,
            backbone_repo: "o/x".to_string(),
            gguf_file: "x.gguf".to_string(),
            voice_preset: String::new(),
            ref_wav_path: "/me.wav".to_string(),
            ref_text: "me".to_string(),
        },
    );
    assert_eq!(worker.step(&mut state, speak(None)), load("o/x", Some("x.gguf"), false));
    assert_eq!(worker.step(&mut state, NeuttsEvent::Loaded), load_voice("", "/me.wav", "me"));
}
