use skill_tts::kitten_worker::{
    keep_voices, KittenAction, KittenEvent, KittenJob, KittenWorker, TtsCmd,
};
use skill_tts::state::{Backends, TtsState};

const REPO: &str = "KittenML/kitten-tts-mini-0.8";

fn service() -> TtsState {
    TtsState::new(Backends { kitten: true, neutts: true })
}

fn init() -> KittenEvent {
    KittenEvent::Command { cmd: TtsCmd::Init }
}

fn speak() -> KittenEvent {
    let cmd = TtsCmd::Speak { text: "Hi".to_string(), voice: "Bella".to_string() };
    KittenEvent::Command { cmd }
}

fn unload() -> KittenEvent {
    KittenEvent::Command { cmd: TtsCmd::Unload }
}

fn loaded(voice: &str) -> KittenEvent {
    KittenEvent::Loaded { voices: vec![voice.to_string()] }
}

fn say() -> KittenAction {
    KittenAction::Speak { text: "Hi".to_string(), voice: "Bella".to_string() }
}

fn load(report: bool) -> KittenAction {
    KittenAction::Load { repo: REPO.to_string(), report }
}

#[test]
fn kitten_init_loads_once() {
    let mut state = service();
    let mut worker = KittenWorker::new(true);
    assert_eq!(worker.step(&mut state, init()), load(true));
    assert!(!state.kitten_loaded);
    assert_eq!(
        worker.step(&mut state, loaded("Jasper")),
        KittenAction::ReplyInit { result: Ok(()) },
    );
    assert!(state.kitten_loaded && worker.model);
    assert_eq!(state.voices, Some(vec!["Jasper".to_string()]));
    assert_eq!(worker.step(&mut state, init()), KittenAction::ReplyInit { result: Ok(()) });
}

#[test]
fn kitten_init_failure_is_answered() {
    let mut state = service();
    let mut worker = KittenWorker::new(true);
    worker.step(&mut state, init());
    assert_eq!(
        worker.step(&mut state, KittenEvent::LoadFailed { error: "offline".to_string() }),
        KittenAction::ReplyInit {
            result: Err("kittentts: model load failed: offline".to_string()),
        },
    );
    assert!(!state.kitten_loaded && !worker.model && state.voices.is_none());
    assert_eq!(worker.job, KittenJob::Idle);
}

#[test]
fn kitten_speaks_lazily() {
    let mut state = service();
    let mut worker = KittenWorker::new(false);
    assert_eq!(worker.step(&mut state, speak()), load(false));
    assert_eq!(worker.step(&mut state, loaded("Jasper")), KittenAction::OpenAudio);
    assert!(state.kitten_loaded);
    assert_eq!(worker.step(&mut state, KittenEvent::Opened { stream: true }), say());
    assert_eq!(worker.step(&mut state, KittenEvent::Spoken), KittenAction::ReplySpoken);
    assert_eq!(worker.step(&mut state, speak()), say());
}

#[test]
fn kitten_without_audio_skips() {
    let mut state = service();
    let mut worker = KittenWorker::new(false);
    worker.step(&mut state, init());
    worker.step(&mut state, loaded("Jasper"));
    assert_eq!(worker.step(&mut state, speak()), KittenAction::OpenAudio);
    assert_eq!(
        worker.step(&mut state, KittenEvent::Opened { stream: false }),
        KittenAction::ReplySpoken,
    );
    assert_eq!(worker.step(&mut state, speak()), KittenAction::OpenAudio);
}

#[test]
fn kitten_lazy_load_failure_skips() {
    let mut state = service();
    let mut worker = KittenWorker::new(true);
    worker.step(&mut state, speak());
    assert_eq!(
        worker.step(&mut state, KittenEvent::LoadFailed { error: "e".to_string() }),
        KittenAction::ReplySpoken,
    );
    assert!(!state.kitten_loaded);
}

#[test]
fn kitten_unload_makes_the_next_command_load() {
    let mut state = service();
    let mut worker = KittenWorker::new(true);
    worker.step(&mut state, init());
    worker.step(&mut state, loaded("Jasper"));
    assert_eq!(worker.step(&mut state, unload()), KittenAction::ReplyUnloaded);
    assert!(!state.kitten_loaded && !worker.model);
    assert_eq!(worker.step(&mut state, speak()), load(false));
    assert_eq!(worker.step(&mut state, loaded("Luna")), say());
    assert_eq!(state.voices, Some(vec!["Jasper".to_string()]));
}

#[test]
fn first_voices_are_kept() {
    let mut state = service();
    keep_voices(&mut state, vec!["A".to_string()]);
    keep_voices(&mut state, vec!["B".to_string()]);
    assert_eq!(state.voices, Some(vec!["A".to_string()]));
}
