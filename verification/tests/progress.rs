use skill_tts::progress::{
    kitten_progress_to_event, neutts_progress_to_event, DownloadMeter, KittenProgress,
    LoadProgress, TtsProgressEvent,
};

fn fields(e: &TtsProgressEvent) -> (&str, u32, u32, &str) {
    (e.phase, e.step, e.total, e.label.as_str())
}

#[test]
fn plain_events() {
    assert_eq!(fields(&TtsProgressEvent::step(2, 3, "x".to_string())), ("step", 2, 3, "x"));
    assert_eq!(fields(&TtsProgressEvent::ready()), ("ready", 0, 0, ""));
    assert_eq!(fields(&TtsProgressEvent::unloaded()), ("unloaded", 0, 0, ""));
}

#[test]
fn fetching_names_file_and_repository() {
    let e = neutts_progress_to_event(LoadProgress::Fetching {
        step: 1,
        total: 3,
        file: "a.gguf".to_string(),
        repo: "org/repo".to_string(),
        size_mb: Some(135),
    });
    assert_eq!(fields(&e), ("step", 1, 3, "a.gguf from org/repo (~135 MB)"));
    let e = neutts_progress_to_event(LoadProgress::Fetching {
        step: 2,
        total: 3,
        file: "d".to_string(),
        repo: "(skill_dir)".to_string(),
        size_mb: None,
    });
    assert_eq!(fields(&e), ("step", 2, 3, "d from (skill_dir)"));
}

#[test]
fn downloading_counts_whole_megabytes() {
    let e = neutts_progress_to_event(LoadProgress::Downloading {
        step: 1,
        total: 3,
        downloaded: 2 * 1_048_576 - 1,
        total_bytes: 135 * 1_048_576,
    });
    assert_eq!(fields(&e), ("step", 1, 3, "Downloading… 1/135 MB"));
}

#[test]
fn loading_names_component() {
    let e = neutts_progress_to_event(LoadProgress::Loading {
        step: 3,
        total: 3,
        component: "backbone + NeuCodec decoder".to_string(),
    });
    assert_eq!(fields(&e), ("step", 3, 3, "backbone + NeuCodec decoder"));
}

#[test]
fn kitten_reports() {
    let e = kitten_progress_to_event(KittenProgress::Fetching {
        step: 1,
        total: 4,
        file: "config.json".to_string(),
    });
    assert_eq!(fields(&e), ("step", 1, 4, "config.json"));
    let e = kitten_progress_to_event(KittenProgress::Loading);
    assert_eq!(fields(&e), ("step", 4, 4, "Loading ONNX session"));
}

#[test]
fn meter_counts_bytes() {
    let mut meter = DownloadMeter::new();
    assert_eq!(meter.init(100), (0, 100));
    assert_eq!(meter.update(30), (30, 100));
    assert_eq!(meter.update(40), (70, 100));
    assert_eq!(meter.finish(), (100, 100));
    assert_eq!(meter, DownloadMeter { done: 70, total: 100 });
}
