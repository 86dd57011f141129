use std::path::{Path, PathBuf};

use skill_tts::espeak::{bundled_data_path, init_espeak_data_path, Candidate, DataSource};

fn at(path: &str, is_dir: bool) -> Option<Candidate> {
    Some(Candidate { path: PathBuf::from(path), is_dir })
}

fn picked(source: DataSource, path: &str) -> Option<(DataSource, PathBuf)> {
    Some((source, PathBuf::from(path)))
}

#[test]
fn data_path_order() {
    let env = || at("/env", true);
    let bundle = || at("/bundle", true);
    let dev = || at("/dev", true);
    assert_eq!(
        init_espeak_data_path(env(), bundle(), dev()),
        picked(DataSource::Environment, "/env"),
    );
    assert_eq!(
        init_espeak_data_path(None, bundle(), dev()),
        picked(DataSource::Bundle, "/bundle"),
    );
    assert_eq!(
        init_espeak_data_path(at("/env", false), at("/bundle", false), dev()),
        picked(DataSource::Development, "/dev"),
    );
    assert_eq!(init_espeak_data_path(at("/env", false), None, at("/dev", false)), None);
    assert_eq!(init_espeak_data_path(None, None, None), None);
}

#[test]
fn data_in_the_bundle() {
    assert_eq!(
        bundled_data_path("/Applications/Skill.app/Contents/MacOS/skill"),
        Some("/Applications/Skill.app/Contents/Resources/espeak-ng-data".to_string()),
    );
    assert_eq!(bundled_data_path("/bin/skill"), Some("/Resources/espeak-ng-data".to_string()));
    assert_eq!(bundled_data_path("bin/skill"), Some("Resources/espeak-ng-data".to_string()));
    assert_eq!(bundled_data_path("/skill"), None);
    assert_eq!(bundled_data_path("skill"), None);
    assert_eq!(bundled_data_path("/"), None);
    assert_eq!(bundled_data_path(""), None);
}

#[test]
fn bundle_is_two_directories_up() {
    for exe in [
        "/a/b/c", "a/b/c", "/a/./b/./c", "./a/b", "././b", "/a//b//c/", "//a/b", "/a/b/c/.",
        "a/../b/c", "..", "../..", "/..", "/.", ".", "./", "/a/b/..", "/ä/ß/ö", "a/.", "//", "/./a/b",
        "a./b./c.", "/a/.b/c",
    ] {
        let up = Path::new(exe).parent().and_then(|p| p.parent());
        let data = up.map(|p| p.join("Resources").join("espeak-ng-data"));
        assert_eq!(bundled_data_path(exe), data.map(|p| p.to_str().unwrap().to_string()), "{exe}");
    }
}
