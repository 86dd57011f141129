use skill_tts::paths::init_tts_dirs;
use skill_tts::state::{Backends, TtsState};
use skill_tts::wav::{
    cache_message_bytes, keep_sample, play_wav_file, playback, wav_cache_path, wav_name, WavAudio,
};

fn registered() -> TtsState {
    let mut state = TtsState::new(Backends { kitten: true, neutts: true });
    init_tts_dirs(&mut state, "/data");
    state
}

/// A WAV file of one channel with the given sample width and data.
fn wav(bits: u16, rate: u32, declared: u32, data: &[u8]) -> Vec<u8> {
    let block = bits / 8;
    let mut f = Vec::new();
    f.extend_from_slice(b"RIFF");
    f.extend_from_slice(&(36 + declared).to_le_bytes());
    f.extend_from_slice(b"WAVEfmt ");
    f.extend_from_slice(&16u32.to_le_bytes());
    f.extend_from_slice(&1u16.to_le_bytes());
    f.extend_from_slice(&1u16.to_le_bytes());
    f.extend_from_slice(&rate.to_le_bytes());
    f.extend_from_slice(&(rate * block as u32).to_le_bytes());
    f.extend_from_slice(&block.to_le_bytes());
    f.extend_from_slice(&bits.to_le_bytes());
    f.extend_from_slice(b"data");
    f.extend_from_slice(&declared.to_le_bytes());
    f.extend_from_slice(data);
    f
}

fn file(name: &str) -> Option<String> {
    Some(name.to_string())
}

#[test]
fn message_separates_its_parts() {
    assert_eq!(cache_message_bytes("a", &None, "b", "c"), b"a\0b\0c");
    assert_eq!(cache_message_bytes("a", &file("f.gguf"), "b", "c"), b"a\xfff.gguf\0b\0c");
    assert_eq!(cache_message_bytes("", &None, "", ""), b"\0\0");
    assert_eq!(cache_message_bytes("r", &None, "k", "ü"), "r\0k\0ü".as_bytes());
}

#[test]
fn message_changes_with_each_part() {
    let base = cache_message_bytes("ab", &None, "c", "d");
    assert_ne!(base, cache_message_bytes("a", &None, "bc", "d"));
    assert_ne!(base, cache_message_bytes("ab", &None, "", "cd"));
    assert_ne!(base, cache_message_bytes("ab", &None, "c", "e"));
    assert_ne!(base, cache_message_bytes("ab", &file(""), "c", "d"));
    assert_ne!(base, cache_message_bytes("a", &file("b"), "c", "d"));
    assert_ne!(
        cache_message_bytes("r", &file("c"), "v", "t"),
        cache_message_bytes("r", &None, "c", "v\0t"),
    );
}

#[test]
fn one_change_shows_in_names_with_zeros() {
    let base = cache_message_bytes("a\0b", &file("c\0"), "v\0", "\0t");
    assert_ne!(base, cache_message_bytes("a", &file("c\0"), "v\0", "\0t"));
    assert_ne!(base, cache_message_bytes("a\0b", &file("c"), "v\0", "\0t"));
    assert_ne!(base, cache_message_bytes("a\0b", &None, "v\0", "\0t"));
    assert_ne!(base, cache_message_bytes("a\0b", &file("c\0"), "v", "\0t"));
    assert_ne!(base, cache_message_bytes("a\0b", &file("c\0"), "v\0", "t"));
    assert_eq!(
        cache_message_bytes("a\0b", &None, "c", "t"),
        cache_message_bytes("a", &None, "b\0c", "t"),
    );
}

#[test]
fn name_of_a_digest() {
    assert_eq!(wav_name(&[0xde, 0xad, 0x01]), "dead01.wav");
}

#[test]
fn path_of_an_utterance() {
    let state = registered();
    assert_eq!(
        wav_cache_path(&state, "neuphonic/neutts-nano-q4-gguf", &None, "jo", "Hello"),
        "/data/cache/neutts-wav/ef8342449d642addad97618a45a55eb6d8aaea576ce54071ae059545da180935.wav",
    );
    assert_eq!(
        wav_cache_path(&state, "", &None, "", ""),
        "/data/cache/neutts-wav/96a296d224f285c67bee93c30f8a309157f0daa35dc5b87e410b78630a09cfc7.wav",
    );
    assert_eq!(
        wav_cache_path(&state, "r", &None, "custom-x", "Grüße"),
        "/data/cache/neutts-wav/76582efa9a8f6e57b1268972daef672ce17b91aa0aa6799ee81442ded40145c0.wav",
    );
}

#[test]
fn path_changes_with_model_voice_and_text() {
    let state = registered();
    let base = wav_cache_path(&state, "repo", &None, "jo", "Hello");
    assert_eq!(base, wav_cache_path(&state, "repo", &None, "jo", "Hello"));
    assert_ne!(base, wav_cache_path(&state, "repo2", &None, "jo", "Hello"));
    assert_ne!(base, wav_cache_path(&state, "repo", &None, "dave", "Hello"));
    assert_ne!(base, wav_cache_path(&state, "repo", &None, "jo", "Hello!"));
    let q4 = wav_cache_path(&state, "repo", &file("q4.gguf"), "jo", "Hello");
    assert_ne!(base, q4);
    assert_ne!(q4, wav_cache_path(&state, "repo", &file("q8.gguf"), "jo", "Hello"));
}

#[test]
fn file_is_called_by_its_digest() {
    let path = wav_cache_path(&registered(), "repo", &file("q4.gguf"), "jo", "Hello");
    let name = path.strip_prefix("/data/cache/neutts-wav/").unwrap();
    assert_eq!(name.len(), 68);
    assert_eq!(
        name,
        "fdce7f219df2d01d29c697976410b2aa091cbffa7ebcff6a903d959c3332d56e.wav",
    );
}

#[test]
fn unreadable_samples_are_left_out() {
    let mut kept = Vec::new();
    for sample in [Some(1), None, Some(-3), None] {
        keep_sample(&mut kept, sample);
    }
    assert_eq!(kept, vec![1, -3]);
    assert_eq!(
        playback(24000, kept),
        Some(WavAudio { sample_rate: 24000, samples: vec![1, -3] }),
    );
    assert_eq!(playback(24000, vec![]), None);
}

#[test]
fn sixteen_bit_file_plays() {
    let file = wav(16, 24000, 6, &[1, 0, 0xff, 0xff, 0, 0x80]);
    assert_eq!(
        play_wav_file(&file),
        Ok(Some(WavAudio { sample_rate: 24000, samples: vec![1, -1, i16::MIN] })),
    );
}

#[test]
fn eight_bit_file_plays() {
    let file = wav(8, 8000, 2, &[128, 255]);
    assert_eq!(
        play_wav_file(&file),
        Ok(Some(WavAudio { sample_rate: 8000, samples: vec![0, 127] })),
    );
}

#[test]
fn truncated_file_plays_what_is_there() {
    let file = wav(16, 24000, 6, &[5, 0, 6, 0]);
    assert_eq!(
        play_wav_file(&file),
        Ok(Some(WavAudio { sample_rate: 24000, samples: vec![5, 6] })),
    );
}

#[test]
fn declared_length_costs_no_memory() {
    let file = wav(16, 24000, 4_000_000, &[7, 0]);
    let audio = play_wav_file(&file).unwrap().unwrap();
    assert_eq!(audio.samples, vec![7]);
    assert!(audio.samples.capacity() < 1000);
}

#[test]
fn nothing_to_play() {
    assert_eq!(play_wav_file(&wav(16, 24000, 0, &[])), Ok(None));
    assert_eq!(play_wav_file(&wav(32, 24000, 8, &[0; 8])), Ok(None));
}

#[test]
fn no_wav_file() {
    let error = play_wav_file(b"not a wav file").unwrap_err();
    assert!(error.contains("no RIFF tag found"), "{error}");
    assert!(play_wav_file(&[]).is_err());
}
