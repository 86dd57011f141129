use skill_tts::state::{Backends, TtsState};
use skill_tts::voices::{is_neutts_preset, tts_list_neutts_voices};

#[test]
fn presets_are_known_by_name() {
    for name in ["jo", "dave", "greta", "juliette", "mateo"] {
        assert!(is_neutts_preset(name));
    }
    for name in ["", "Jo", "jasper", "default", "jo "] {
        assert!(!is_neutts_preset(name));
    }
}

#[test]
fn preset_list() {
    let state = TtsState::new(Backends { kitten: true, neutts: true });
    let list: Vec<(String, String, String, String)> = tts_list_neutts_voices(&state)
        .into_iter()
        .map(|v| (v.id, v.lang, v.flag, v.gender))
        .collect();
    let expected = [
        ("jo", "en-us", "🇺🇸", "♀"),
        ("dave", "en-us", "🇺🇸", "♂"),
        ("greta", "de", "🇩🇪", "♀"),
        ("juliette", "fr-fr", "🇫🇷", "♀"),
        ("mateo", "es", "🇪🇸", "♂"),
    ];
    assert_eq!(list.len(), expected.len());
    for (v, e) in list.iter().zip(expected) {
        assert_eq!((v.0.as_str(), v.1.as_str(), v.2.as_str(), v.3.as_str()), e);
    }
}

#[test]
fn preset_list_without_neutts_is_empty() {
    let state = TtsState::new(Backends { kitten: true, neutts: false });
    assert!(tts_list_neutts_voices(&state).is_empty());
}
