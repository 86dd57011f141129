use skill_tts::paths::init_tts_dirs;
use skill_tts::reference::{load_ref_codes, VoiceAction, VoiceEvent, VoiceLoad, VoiceRef};
use skill_tts::state::{Backends, TtsState};

fn search(preset: &str, wav: &str, text: &str) -> (VoiceLoad, VoiceAction) {
    let mut state = TtsState::new(Backends { kitten: true, neutts: true });
    init_tts_dirs(&mut state, "/data");
    load_ref_codes(&state, "/samples", preset, wav, text)
}

fn use_voice(codes: Vec<i32>, text: &str, key: &str, store: Option<&str>) -> VoiceAction {
    VoiceAction::Use {
        voice: VoiceRef { codes, text: text.to_string(), key: key.to_string() },
        store: store.map(|s| s.to_string()),
    }
}

#[test]
fn preset_voice_has_trimmed_words() {
    let (load, action) = search("jo", "/me.wav", "mine");
    assert_eq!(action, VoiceAction::ReadPresetCodes { path: "/samples/jo.npy".to_string() });
    let (load, action) = load.step(VoiceEvent::PresetCodes { codes: Some(vec![1, 2]) });
    assert_eq!(action, VoiceAction::ReadPresetWords { path: "/samples/jo.txt".to_string() });
    let (load, action) =
        load.step(VoiceEvent::PresetWords { words: Some("  Hello there.\n".to_string()) });
    assert_eq!(action, use_voice(vec![1, 2], "Hello there.", "jo", None));
    assert_eq!(load, VoiceLoad::Found);
}

#[test]
fn preset_voice_without_words() {
    let (load, _) = search("dave", "", "");
    let (load, _) = load.step(VoiceEvent::PresetCodes { codes: Some(vec![3]) });
    let (_, action) = load.step(VoiceEvent::PresetWords { words: None });
    assert_eq!(action, use_voice(vec![3], "", "dave", None));
}

#[test]
fn missing_preset_falls_back_to_own_voice() {
    let (load, _) = search("nobody", "/me.wav", "mine");
    let (_, action) = load.step(VoiceEvent::PresetCodes { codes: None });
    assert_eq!(action, use_voice(vec![], "", "default", None));
}

#[test]
fn no_reference_is_own_voice() {
    let (load, action) = search("", "", "ignored");
    assert_eq!(load, VoiceLoad::Found);
    assert_eq!(action, use_voice(vec![], "", "default", None));
}

#[test]
fn recording_with_cached_codes() {
    let (load, action) = search("", "/me.wav", " mine ");
    assert_eq!(action, VoiceAction::HashWav { wav: "/me.wav".to_string() });
    let (load, action) = load.step(VoiceEvent::Hashed { hash: Some("abc".to_string()) });
    assert_eq!(
        action,
        VoiceAction::LookUpCodes {
            dir: "/data/cache/neutts-ref-codes".to_string(),
            wav: "/me.wav".to_string(),
        },
    );
    let (_, action) = load.step(VoiceEvent::LookedUp { cache: true, codes: Some(vec![9]) });
    assert_eq!(action, use_voice(vec![9], " mine ", "custom-abc", None));
}

#[test]
fn recording_is_encoded_and_stored() {
    let (load, _) = search("", "/me.wav", "mine");
    let (load, _) = load.step(VoiceEvent::Hashed { hash: Some("h".to_string()) });
    let (load, action) = load.step(VoiceEvent::LookedUp { cache: true, codes: None });
    assert_eq!(action, VoiceAction::EncodeWav { wav: "/me.wav".to_string() });
    let (_, action) = load.step(VoiceEvent::Encoded { codes: Some(vec![7]) });
    assert_eq!(action, use_voice(vec![7], "mine", "custom-h", Some("/me.wav")));
}

#[test]
fn recording_that_cannot_be_hashed_is_own_voice() {
    let (load, _) = search("", "/me.wav", "mine");
    let (load, action) = load.step(VoiceEvent::Hashed { hash: None });
    assert_eq!(action, use_voice(vec![], "", "default", None));
    assert_eq!(load, VoiceLoad::Found);
}

#[test]
fn recording_without_cache_is_not_stored() {
    let (load, _) = search("", "/me.wav", "mine");
    let (load, _) = load.step(VoiceEvent::Hashed { hash: Some("h".to_string()) });
    let (load, _) = load.step(VoiceEvent::LookedUp { cache: false, codes: None });
    let (_, action) = load.step(VoiceEvent::Encoded { codes: Some(vec![7]) });
    assert_eq!(action, use_voice(vec![7], "mine", "custom-h", None));
}

#[test]
fn recording_that_cannot_be_encoded() {
    let (load, _) = search("", "/me.wav", "mine");
    let (load, _) = load.step(VoiceEvent::Hashed { hash: Some("h".to_string()) });
    let (load, _) = load.step(VoiceEvent::LookedUp { cache: true, codes: None });
    let (_, action) = load.step(VoiceEvent::Encoded { codes: None });
    assert_eq!(action, use_voice(vec![], "", "default", None));
}
