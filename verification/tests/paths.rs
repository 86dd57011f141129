use skill_tts::paths::{
    init_tts_dirs, join, neutts_model_dir, neutts_ref_code_cache_dir, neutts_wav_cache_dir,
    skill_dir,
};
use skill_tts::state::{Backends, TtsState};

fn both() -> TtsState {
    TtsState::new(Backends { kitten: true, neutts: true })
}

#[test]
fn join_adds_one_separator() {
    assert_eq!(join("/data", "models/neutts"), "/data/models/neutts");
    assert_eq!(join("/data/", "models/neutts"), "/data/models/neutts");
    assert_eq!(join("", "models"), "models");
    assert_eq!(join("/data", "/etc"), "/etc");
    assert_eq!(join("/data", ""), "/data/");
}

#[test]
fn join_agrees_with_std() {
    for base in ["", "/", ".", "a", "a/", "/a/b", "ä"] {
        for sub in ["", "/", "x", "x/y", "/x", "x/"] {
            let expected = std::path::Path::new(base).join(sub);
            assert_eq!(join(base, sub), expected.to_str().unwrap());
        }
    }
}

#[test]
fn directories_before_registration() {
    let state = both();
    assert_eq!(skill_dir(&state), ".");
    assert_eq!(neutts_model_dir(&state), "./models/neutts");
    assert_eq!(neutts_wav_cache_dir(&state), "./cache/neutts-wav");
    assert_eq!(neutts_ref_code_cache_dir(&state), "./cache/neutts-ref-codes");
}

#[test]
fn registration_lists_directories_once() {
    let mut state = both();
    assert_eq!(
        init_tts_dirs(&mut state, "/data"),
        vec!["/data/models/neutts", "/data/cache/neutts-wav", "/data/cache/neutts-ref-codes"],
    );
    assert!(init_tts_dirs(&mut state, "/other").is_empty());
    assert_eq!(skill_dir(&state), "/data");
    assert_eq!(neutts_model_dir(&state), "/data/models/neutts");
    assert_eq!(neutts_wav_cache_dir(&state), "/data/cache/neutts-wav");
    assert_eq!(neutts_ref_code_cache_dir(&state), "/data/cache/neutts-ref-codes");
}

#[test]
fn registration_without_neutts_needs_no_directories() {
    let mut state = TtsState::new(Backends { kitten: true, neutts: false });
    assert!(init_tts_dirs(&mut state, "/data").is_empty());
    assert_eq!(skill_dir(&state), "/data");
}
