use std::path::PathBuf;

use skill_tts::loader::{
    download_report, find_gguf, hf_dl_cb, open_load, skill_neutts_load, BackboneLoad, DownloadPlan,
    LoadAction, LoadEvent, LoadStage,
};
use skill_tts::paths::init_tts_dirs;
use skill_tts::progress::LoadProgress;
use skill_tts::state::{Backends, TtsState};

const DECODER: &str = "/data/models/neutts/neucodec_decoder.safetensors";

fn opened(repo: &str, gguf: Option<&str>) -> BackboneLoad {
    let mut state = TtsState::new(Backends { kitten: true, neutts: true });
    init_tts_dirs(&mut state, "/data");
    let (load, action) =
        skill_neutts_load(&state, repo.to_string(), gguf.map(|f| f.to_string()));
    assert_eq!(action, LoadAction::Connect);
    load
}

fn fetching(step: u32, file: &str, repo: &str, size_mb: Option<u32>) -> LoadProgress {
    LoadProgress::Fetching {
        step,
        total: 3,
        file: file.to_string(),
        repo: repo.to_string(),
        size_mb,
    }
}

fn loading(step: u32, component: &str) -> LoadProgress {
    LoadProgress::Loading { step, total: 3, component: component.to_string() }
}

fn error(e: &str) -> LoadAction {
    LoadAction::Fail { error: e.to_string() }
}

#[test]
fn known_model_gives_language_and_size() {
    let load = opened("neuphonic/neutts-nano-german-q4-gguf", None);
    assert_eq!(load.language, "de");
    assert_eq!(load.size_mb, Some(135));
    assert_eq!(load.decoder, DECODER);
    assert_eq!(load.stage, LoadStage::Connecting);
}

#[test]
fn unknown_model_speaks_english() {
    let load = opened("someone/else", None);
    assert_eq!(load.language, "en-us");
    assert_eq!(load.size_mb, None);
}

#[test]
fn open_load_takes_what_is_known() {
    let (load, action) =
        open_load("r".to_string(), None, "d".to_string(), Some(("fr-fr".to_string(), 7)));
    assert_eq!(action, LoadAction::Connect);
    assert_eq!((load.language.as_str(), load.size_mb), ("fr-fr", Some(7)));
}

#[test]
fn first_gguf_file_is_taken() {
    let files = |names: &[&str]| names.iter().map(|n| n.to_string()).collect::<Vec<_>>();
    assert_eq!(find_gguf(files(&["README.md", "b.gguf", "a.gguf"])), Some("b.gguf".to_string()));
    assert_eq!(find_gguf(files(&["README.md", "x.gguf.txt"])), None);
    assert_eq!(find_gguf(files(&[])), None);
}

#[test]
fn load_with_kept_decoder() {
    let load = opened("neuphonic/neutts-nano-q4-gguf", None);
    let (load, reports, action) = load.step(LoadEvent::Connected);
    assert_eq!(
        reports,
        vec![fetching(1, "*.gguf", "neuphonic/neutts-nano-q4-gguf", Some(135))],
    );
    assert_eq!(action, LoadAction::List { repo: "neuphonic/neutts-nano-q4-gguf".to_string() });
    let files = vec![".gitattributes".to_string(), "nano.gguf".to_string()];
    let (load, reports, action) = load.step(LoadEvent::Listed { files });
    assert!(reports.is_empty());
    assert_eq!(
        action,
        LoadAction::Download {
            repo: "neuphonic/neutts-nano-q4-gguf".to_string(),
            file: "nano.gguf".to_string(),
            step: 1,
        },
    );
    let (load, reports, action) =
        load.step(LoadEvent::Downloaded { path: PathBuf::from("/hub/nano.gguf") });
    assert!(reports.is_empty());
    assert_eq!(action, LoadAction::LookForDecoder { path: DECODER.to_string() });
    let (load, reports, action) = load.step(LoadEvent::DecoderFound);
    assert_eq!(
        reports,
        vec![
            fetching(2, "neucodec_decoder.safetensors", "(skill_dir)", None),
            loading(3, "backbone + NeuCodec decoder"),
        ],
    );
    assert_eq!(
        action,
        LoadAction::Build {
            backbone: PathBuf::from("/hub/nano.gguf"),
            decoder: DECODER.to_string(),
            language: "en-us".to_string(),
        },
    );
    let (load, reports, action) = load.step(LoadEvent::Built);
    assert!(reports.is_empty());
    assert_eq!(action, LoadAction::Succeed);
    assert_eq!(load.stage, LoadStage::Finished);
}

#[test]
fn load_converts_missing_decoder() {
    let load = opened("someone/else", Some("m.gguf"));
    let (load, reports, action) = load.step(LoadEvent::Connected);
    assert_eq!(reports, vec![fetching(1, "m.gguf", "someone/else", None)]);
    assert_eq!(
        action,
        LoadAction::Download {
            repo: "someone/else".to_string(),
            file: "m.gguf".to_string(),
            step: 1,
        },
    );
    let (load, _, _) = load.step(LoadEvent::Downloaded { path: PathBuf::from("/hub/m.gguf") });
    let (load, reports, action) = load.step(LoadEvent::DecoderMissing);
    assert_eq!(
        reports,
        vec![fetching(2, "pytorch_model.bin", "neuphonic/neucodec", Some(1100))],
    );
    assert_eq!(
        action,
        LoadAction::Download {
            repo: "neuphonic/neucodec".to_string(),
            file: "pytorch_model.bin".to_string(),
            step: 2,
        },
    );
    let (load, reports, action) =
        load.step(LoadEvent::Downloaded { path: PathBuf::from("/hub/p.bin") });
    assert_eq!(
        reports,
        vec![loading(2, "converting pytorch_model.bin → neucodec_decoder.safetensors")],
    );
    assert_eq!(
        action,
        LoadAction::Convert {
            checkpoint: PathBuf::from("/hub/p.bin"),
            dest: DECODER.to_string(),
            heads: 16,
            repo: "neuphonic/neucodec".to_string(),
        },
    );
    let (load, reports, action) = load.step(LoadEvent::Converted);
    assert_eq!(reports, vec![loading(3, "backbone + NeuCodec decoder")]);
    assert_eq!(
        action,
        LoadAction::Build {
            backbone: PathBuf::from("/hub/m.gguf"),
            decoder: DECODER.to_string(),
            language: "en-us".to_string(),
        },
    );
    let (_, _, action) = load.step(LoadEvent::BuildFailed { error: "oom".to_string() });
    assert_eq!(action, error("Failed to load NeuTTS: oom"));
}

#[test]
fn load_errors_early() {
    let e = || "e".to_string();
    let (_, reports, action) = opened("o/r", None).step(LoadEvent::ConnectFailed { error: e() });
    assert!(reports.is_empty());
    assert_eq!(action, error("Failed to init HF client: e"));
    let (load, _, _) = opened("o/r", None).step(LoadEvent::Connected);
    let (_, _, action) = load.step(LoadEvent::ListFailed { error: e() });
    assert_eq!(action, error("Failed to fetch repo info for 'o/r': e"));
    let (load, _, _) = opened("o/r", None).step(LoadEvent::Connected);
    let (_, _, action) = load.step(LoadEvent::Listed { files: vec!["x".to_string()] });
    assert_eq!(action, error("No .gguf file in 'o/r'"));
    let (load, _, _) = opened("o/r", Some("f.gguf")).step(LoadEvent::Connected);
    let (_, _, action) = load.step(LoadEvent::DownloadFailed { error: e() });
    assert_eq!(action, error("Failed to download 'f.gguf' from 'o/r': e"));
}

#[test]
fn load_errors_late() {
    let e = || "e".to_string();
    let at_decoder = || {
        let (load, _, _) = opened("o/r", Some("f.gguf")).step(LoadEvent::Connected);
        let (load, _, _) = load.step(LoadEvent::Downloaded { path: PathBuf::from("/f") });
        let (load, _, _) = load.step(LoadEvent::DecoderMissing);
        load
    };
    let (_, _, action) = at_decoder().step(LoadEvent::DownloadFailed { error: e() });
    assert_eq!(
        action,
        error("Failed to download 'pytorch_model.bin' from 'neuphonic/neucodec': e"),
    );
    let (load, _, _) = at_decoder().step(LoadEvent::Downloaded { path: PathBuf::from("/p") });
    let (load, _, action) = load.step(LoadEvent::ConvertFailed { error: e() });
    assert_eq!(action, error("Checkpoint conversion failed: e"));
    assert_eq!(load.stage, LoadStage::Finished);
}

#[test]
fn cached_file_is_one_byte_of_one() {
    assert_eq!(
        hf_dl_cb(Some(PathBuf::from("/hub/f"))),
        DownloadPlan::Cached { path: PathBuf::from("/hub/f"), report: (1, 1) },
    );
    assert_eq!(hf_dl_cb(None), DownloadPlan::Fetch);
}

#[test]
fn download_reports_speak_of_three_steps() {
    assert_eq!(
        download_report(2, (10, 20)),
        LoadProgress::Downloading { step: 2, total: 3, downloaded: 10, total_bytes: 20 },
    );
}
