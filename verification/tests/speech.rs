use skill_tts::speech::{
    judge_kitten, judge_neutts, kitten_speak_inner, neutts_speak_cached, neutts_synthesize,
    CachedSpeech, SpeechAction, SpeechEvent,
};
use skill_tts::state::{Backends, TtsState};
use skill_tts::wav::wav_cache_path;

fn utterance() -> (CachedSpeech, String) {
    let state = TtsState::new(Backends { kitten: true, neutts: true });
    let gguf = Some("q4.gguf".to_string());
    let path = wav_cache_path(&state, "repo", &gguf, "jo", "Hi");
    let (speech, action) = neutts_speak_cached(
        &state,
        "Hi".to_string(),
        vec![1, 2],
        "words".to_string(),
        "repo",
        &gguf,
        "jo",
    );
    assert_eq!(action, SpeechAction::LookUp { path: path.clone() });
    (speech, path)
}

#[test]
fn kitten_judgements() {
    assert_eq!(kitten_speak_inner("Hi", Ok(10)), Ok(true));
    assert_eq!(kitten_speak_inner("Hi", Ok(0)), Ok(false));
    assert_eq!(
        kitten_speak_inner("a\"b\n", Err("bad".to_string())),
        Err("synthesis failed for \"a\\\"b\\n\": bad".to_string()),
    );
    assert_eq!(
        judge_kitten("Q".to_string(), Err("bad".to_string())),
        Err("synthesis failed for Q: bad".to_string()),
    );
}

#[test]
fn neutts_judgements() {
    assert_eq!(neutts_synthesize("Hi", Ok(1)), Ok(()));
    assert_eq!(
        neutts_synthesize("Hi", Ok(0)),
        Err("synthesis returned no samples for \"Hi\"".to_string()),
    );
    assert_eq!(
        neutts_synthesize("Hi", Err("bad".to_string())),
        Err("neutts synthesis failed for \"Hi\": bad".to_string()),
    );
    assert_eq!(
        judge_neutts("Q".to_string(), Ok(0)),
        Err("synthesis returned no samples for Q".to_string()),
    );
}

#[test]
fn cached_audio_is_played() {
    let (speech, path) = utterance();
    let (speech, action) = speech.step(SpeechEvent::LookedUp { cached: true });
    assert_eq!(action, SpeechAction::PlayCached { path });
    assert_eq!(speech, CachedSpeech::Over);
}

#[test]
fn fresh_audio_is_written_then_played() {
    let (speech, path) = utterance();
    let (speech, action) = speech.step(SpeechEvent::LookedUp { cached: false });
    assert_eq!(
        action,
        SpeechAction::Synthesise {
            text: "Hi".to_string(),
            codes: vec![1, 2],
            ref_text: "words".to_string(),
        },
    );
    let (speech, action) = speech.step(SpeechEvent::Synthesised { outcome: Ok(480) });
    assert_eq!(action, SpeechAction::Write { path });
    let (speech, action) = speech.step(SpeechEvent::Written);
    assert_eq!(action, SpeechAction::Play { sample_rate: 24000 });
    assert_eq!(speech, CachedSpeech::Over);
}

#[test]
fn failed_synthesis_is_neither_written_nor_played() {
    for (outcome, message) in [
        (Ok(0), "synthesis returned no samples for \"Hi\""),
        (Err("e".to_string()), "neutts synthesis failed for \"Hi\": e"),
    ] {
        let (speech, _) = utterance();
        let (speech, _) = speech.step(SpeechEvent::LookedUp { cached: false });
        let (speech, action) = speech.step(SpeechEvent::Synthesised { outcome });
        assert_eq!(action, SpeechAction::Fail { error: message.to_string() });
        assert_eq!(speech, CachedSpeech::Over);
    }
}
