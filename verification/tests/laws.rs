use skill_tts::commands::{serving_engine, tts_init, tts_unload, Engine, Request};
use skill_tts::kitten_worker::{KittenAction, KittenEvent, KittenWorker};
use skill_tts::neutts_worker::{NeuttsAction, NeuttsEvent, NeuttsWorker};
use skill_tts::progress::TtsProgressEvent;
use skill_tts::reference::VoiceRef;
use skill_tts::state::{neutts_apply_config, Backends, NeuttsConfig, TtsState};

fn service(enabled: bool) -> TtsState {
    let mut state = TtsState::new(Backends { kitten: true, neutts: true });
    let cfg = NeuttsConfig {
        enabled,
        backbone_repo: "o/r".to_string(),
        gguf_file: String::new(),
        voice_preset: "jo".to_string(),
        ref_wav_path: String::new(),
        ref_text: String::new(),
    };
    neutts_apply_config(&mut state, &cfg);
    state
}

fn ready() -> Request {
    Request::Emit { event: TtsProgressEvent::ready() }
}

fn hand_to_kitten(
    state: &mut TtsState,
    worker: &mut KittenWorker,
    request: Request,
) -> KittenAction {
    match request {
        Request::Kitten { cmd } => worker.step(state, KittenEvent::Command { cmd }),
        other => panic!("not for KittenTTS: {other:?}"),
    }
}

fn hand_to_neutts(
    state: &mut TtsState,
    worker: &mut NeuttsWorker,
    request: Request,
) -> NeuttsAction {
    match request {
        Request::Neutts { cmd } => worker.step(state, NeuttsEvent::Command { cmd }),
        other => panic!("not for NeuTTS: {other:?}"),
    }
}

fn load_kitten(state: &mut TtsState, worker: &mut KittenWorker) {
    let request = tts_init(state);
    assert!(matches!(hand_to_kitten(state, worker, request), KittenAction::Load { .. }));
    let action = worker.step(state, KittenEvent::Loaded { voices: vec!["Jasper".to_string()] });
    assert_eq!(action, KittenAction::ReplyInit { result: Ok(()) });
}

fn load_neutts(state: &mut TtsState, worker: &mut NeuttsWorker) {
    let request = tts_init(state);
    assert!(matches!(hand_to_neutts(state, worker, request), NeuttsAction::Load { .. }));
    assert!(matches!(worker.step(state, NeuttsEvent::Loaded), NeuttsAction::LoadVoice { .. }));
    let voice = VoiceRef { codes: vec![1], text: "w".to_string(), key: "jo".to_string() };
    let action = worker.step(state, NeuttsEvent::VoiceLoaded { voice });
    assert_eq!(action, NeuttsAction::ReplyInit { result: Ok(()) });
}

#[test]
fn initialised_kitten_is_ready() {
    let mut state = service(false);
    let mut worker = KittenWorker::new(true);
    load_kitten(&mut state, &mut worker);
    assert_eq!(tts_init(&state), ready());
}

#[test]
fn initialised_neutts_is_ready() {
    let mut state = service(true);
    let mut worker = NeuttsWorker::new(true);
    load_neutts(&mut state, &mut worker);
    assert_eq!(tts_init(&state), ready());
}

#[test]
fn unloaded_kitten_loads_again() {
    let mut state = service(false);
    let mut worker = KittenWorker::new(true);
    load_kitten(&mut state, &mut worker);
    let (request, _) = tts_unload(&state);
    assert_eq!(hand_to_kitten(&mut state, &mut worker, request), KittenAction::ReplyUnloaded);
    load_kitten(&mut state, &mut worker);
}

#[test]
fn unloaded_neutts_loads_again() {
    let mut state = service(true);
    let mut worker = NeuttsWorker::new(true);
    load_neutts(&mut state, &mut worker);
    let (request, _) = tts_unload(&state);
    assert_eq!(hand_to_neutts(&mut state, &mut worker, request), NeuttsAction::ReplyUnloaded);
    load_neutts(&mut state, &mut worker);
}

#[test]
fn engines_do_not_touch_each_other() {
    let mut state = service(true);
    let mut neutts = NeuttsWorker::new(true);
    load_neutts(&mut state, &mut neutts);
    assert!(!state.kitten_loaded && state.voices.is_none());
    state.neutts_enabled = false;
    let mut kitten = KittenWorker::new(true);
    load_kitten(&mut state, &mut kitten);
    assert!(state.kitten_loaded && state.neutts_ready && !state.neutts_loading);
    assert_eq!(serving_engine(&state), Some(Engine::Kitten));
    let (request, _) = tts_unload(&state);
    hand_to_kitten(&mut state, &mut kitten, request);
    assert!(!state.kitten_loaded && state.neutts_ready);
}
