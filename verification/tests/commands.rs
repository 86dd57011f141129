use skill_tts::commands::{
    init_answered, serving_engine, tts_get_voice, tts_init, tts_list_voices, tts_set_voice,
    tts_speak, tts_unload, voices_listed, Engine, Request, VoiceList,
};
use skill_tts::kitten_worker::{KittenEvent, KittenWorker, TtsCmd};
use skill_tts::neutts_worker::NeuttsCmd;
use skill_tts::progress::TtsProgressEvent;
use skill_tts::state::{
    get_voice, neutts_apply_config, set_logging, set_voice_inner, tts_log, use_neutts, Backends,
    NeuttsConfig, TtsState,
};

fn build(kitten: bool, neutts: bool) -> TtsState {
    TtsState::new(Backends { kitten, neutts })
}

fn settings(enabled: bool, gguf: &str) -> NeuttsConfig {
    NeuttsConfig {
        enabled,
        backbone_repo: "o/r".to_string(),
        gguf_file: gguf.to_string(),
        voice_preset: "mateo".to_string(),
        ref_wav_path: "/w".to_string(),
        ref_text: "t".to_string(),
    }
}

#[test]
fn new_service_has_defaults() {
    let state = build(true, true);
    assert_eq!(state.neutts_cfg.backbone_repo, "neuphonic/neutts-nano-q4-gguf");
    assert_eq!(state.neutts_cfg.gguf_file, None);
    assert_eq!(state.neutts_cfg.voice_preset, "jo");
    assert_eq!(get_voice(&state), "Jasper");
    assert!(!use_neutts(&state));
}

#[test]
fn engine_by_build_and_settings() {
    for (kitten, neutts, enabled, engine) in [
        (true, true, false, Some(Engine::Kitten)),
        (true, true, true, Some(Engine::Neutts)),
        (true, false, true, Some(Engine::Kitten)),
        (false, true, false, Some(Engine::Neutts)),
        (false, false, true, None),
    ] {
        let mut state = build(kitten, neutts);
        neutts_apply_config(&mut state, &settings(enabled, ""));
        assert_eq!(serving_engine(&state), engine);
        assert_eq!(use_neutts(&state), engine == Some(Engine::Neutts));
    }
}

#[test]
fn settings_are_applied() {
    let mut state = build(true, true);
    state.neutts_ready = true;
    neutts_apply_config(&mut state, &settings(false, ""));
    assert!(state.neutts_ready && !state.neutts_enabled);
    assert_eq!(state.neutts_cfg.gguf_file, None);
    neutts_apply_config(&mut state, &settings(true, "f.gguf"));
    assert!(!state.neutts_ready && state.neutts_enabled);
    assert_eq!(state.neutts_cfg.gguf_file, Some("f.gguf".to_string()));
    assert_eq!(state.neutts_cfg.voice_preset, "mateo");
    assert_eq!(state.neutts_cfg.ref_wav_path, "/w");
    assert_eq!(state.neutts_cfg.ref_text, "t");
}

#[test]
fn settings_without_neutts_change_nothing() {
    let mut state = build(true, false);
    neutts_apply_config(&mut state, &settings(true, "f.gguf"));
    assert_eq!(state, build(true, false));
}

#[test]
fn verbose_log() {
    let mut state = build(true, true);
    assert_eq!(tts_log(&state, "x"), None);
    set_logging(&mut state, true);
    assert_eq!(tts_log(&state, "x"), Some("[tts] x".to_string()));
    set_logging(&mut state, false);
    assert_eq!(tts_log(&state, "x"), None);
}

#[test]
fn init_of_kitten() {
    let mut state = build(true, true);
    assert_eq!(tts_init(&state), Request::Kitten { cmd: TtsCmd::Init });
    state.kitten_loaded = true;
    assert_eq!(tts_init(&state), Request::Emit { event: TtsProgressEvent::ready() });
}

#[test]
fn init_of_neutts() {
    let mut state = build(true, true);
    neutts_apply_config(&mut state, &settings(true, ""));
    let cfg = state.neutts_cfg.clone();
    assert_eq!(tts_init(&state), Request::Neutts { cmd: NeuttsCmd::Init { cfg } });
    state.neutts_loading = true;
    assert_eq!(tts_init(&state), Request::Nothing);
    state.neutts_ready = true;
    assert_eq!(tts_init(&state), Request::Emit { event: TtsProgressEvent::ready() });
    state.neutts_loading = false;
    neutts_apply_config(&mut state, &settings(true, ""));
    assert!(matches!(tts_init(&state), Request::Neutts { cmd: NeuttsCmd::Init { .. } }));
}

#[test]
fn init_answers() {
    assert_eq!(init_answered(&Some(Ok(()))), Some(TtsProgressEvent::ready()));
    assert_eq!(init_answered(&Some(Err("e".to_string()))), None);
    assert_eq!(init_answered(&None), None);
}

#[test]
fn nothing_without_engines() {
    let state = build(false, false);
    assert_eq!(tts_init(&state), Request::Nothing);
    assert_eq!(tts_speak(&state, "Hi".to_string(), None), Request::Nothing);
    assert_eq!(tts_unload(&state), (Request::Nothing, TtsProgressEvent::unloaded()));
}

#[test]
fn unload_reaches_serving_engine() {
    let mut state = build(true, true);
    assert_eq!(tts_unload(&state).0, Request::Kitten { cmd: TtsCmd::Unload });
    neutts_apply_config(&mut state, &settings(true, ""));
    assert_eq!(tts_unload(&state).0, Request::Neutts { cmd: NeuttsCmd::Unload });
    assert_eq!(tts_unload(&state).1, TtsProgressEvent::unloaded());
}

#[test]
fn kitten_voice_falls_back() {
    let mut state = build(true, true);
    tts_set_voice(&mut state, "Bella".to_string());
    assert_eq!(tts_get_voice(&state), "Bella");
    let said = |voice: Option<&str>| {
        tts_speak(&state, "Hi".to_string(), voice.map(|v| v.to_string()))
    };
    let by = |voice: &str| Request::Kitten {
        cmd: TtsCmd::Speak { text: "Hi".to_string(), voice: voice.to_string() },
    };
    assert_eq!(said(None), by("Bella"));
    assert_eq!(said(Some("")), by("Bella"));
    assert_eq!(said(Some("Luna")), by("Luna"));
}

#[test]
fn neutts_voice_is_an_override() {
    let mut state = build(true, true);
    neutts_apply_config(&mut state, &settings(true, ""));
    for (voice, voice_override) in
        [(None, None), (Some(""), None), (Some("dave"), Some("dave")), (Some("x"), Some("x"))]
    {
        assert_eq!(
            tts_speak(&state, "Hi".to_string(), voice.map(|v| v.to_string())),
            Request::Neutts {
                cmd: NeuttsCmd::Speak {
                    text: "Hi".to_string(),
                    voice_override: voice_override.map(|v| v.to_string()),
                },
            },
        );
    }
}

#[test]
fn voice_without_kitten_stays() {
    let mut state = build(false, true);
    tts_set_voice(&mut state, "Bella".to_string());
    assert_eq!(tts_get_voice(&state), "Jasper");
    assert_eq!(get_voice(&state), "Jasper");
    set_voice_inner(&mut state, "Bella".to_string());
    assert_eq!(tts_get_voice(&state), "Jasper");
}

#[test]
fn voices_are_asked_for_once() {
    let mut state = build(true, true);
    assert_eq!(
        tts_list_voices(&state),
        VoiceList::Ask { repo: "KittenML/kitten-tts-mini-0.8".to_string() },
    );
    let voices = vec!["A".to_string(), "B".to_string()];
    assert_eq!(voices_listed(&mut state, Some(voices.clone())), voices);
    assert_eq!(tts_list_voices(&state), VoiceList::Known { voices: voices.clone() });
    assert_eq!(voices_listed(&mut state, Some(vec!["C".to_string()])), vec!["C".to_string()]);
    assert_eq!(tts_list_voices(&state), VoiceList::Known { voices });
}

#[test]
fn failed_listing_is_not_kept() {
    let mut state = build(true, true);
    let only = vec!["Jasper".to_string()];
    assert_eq!(voices_listed(&mut state, None), only);
    assert_eq!(state, build(true, true));
    assert!(matches!(tts_list_voices(&state), VoiceList::Ask { .. }));
    let voices = vec!["Bella".to_string(), "Jasper".to_string()];
    let mut worker = KittenWorker::new(true);
    worker.step(&mut state, KittenEvent::Command { cmd: TtsCmd::Init });
    worker.step(&mut state, KittenEvent::Loaded { voices: voices.clone() });
    assert_eq!(tts_list_voices(&state), VoiceList::Known { voices });
}

#[test]
fn without_kitten_only_the_default_voice() {
    let only = vec!["Jasper".to_string()];
    assert_eq!(tts_list_voices(&build(false, true)), VoiceList::Known { voices: only });
}
