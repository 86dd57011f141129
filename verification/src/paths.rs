//! Where the service keeps its files.
//!
//! Everything that the service converts or generates lives under one data
//! directory, registered once at start-up. Paths are written with `/`.

use vstd::prelude::*;
use vstd::string::*;

use crate::state::{opt_text, texts, TtsState, TtsStateView};

verus! {

/// `sub` taken relative to `base`. A rooted `sub` stands for itself.
pub open spec fn joined(base: Seq<char>, sub: Seq<char>) -> Seq<char> {
    if sub.len() > 0 && sub[0] == '/' {
        sub
    } else if base.len() == 0 || base.last() == '/' {
        base + sub
    } else {
        base + "/"@ + sub
    }
}

/// Appends `sub` to the directory `base`.
pub fn join(base: &str, sub: &str) -> (path: String)
    ensures
        path@ == joined(base@, sub@),
{
    if !sub.is_empty() && sub.get_char(0) == '/' {
        return sub.to_owned();
    }
    let n: usize = base.unicode_len();
    if n == 0 || base.get_char(n - 1) == '/' {
        base.to_owned().concat(sub)
    } else {
        base.to_owned().concat("/").concat(sub)
    }
}

/// The directories that the service needs inside a data directory.
pub open spec fn required_dirs(state: TtsStateView, dir: Seq<char>) -> Seq<Seq<char>> {
    if state.backends.neutts {
        seq![
            joined(dir, "models/neutts"@),
            joined(dir, "cache/neutts-wav"@),
            joined(dir, "cache/neutts-ref-codes"@),
        ]
    } else {
        Seq::empty()
    }
}

/// The state once `dir` was offered as data directory: the first offer stays.
pub open spec fn with_skill_dir(state: TtsStateView, dir: Seq<char>) -> TtsStateView {
    if state.skill_dir is Some {
        state
    } else {
        TtsStateView { skill_dir: Some(dir), ..state }
    }
}

/// Registers the data directory and lists the directories to create in it.
/// A second registration changes nothing and asks for nothing.
pub fn init_tts_dirs(state: &mut TtsState, skill_dir: &str) -> (create: Vec<String>)
    ensures
        final(state)@ == with_skill_dir(old(state)@, skill_dir@),
        texts(create@) == (if old(state)@.skill_dir is Some {
            Seq::<Seq<char>>::empty()
        } else {
            required_dirs(old(state)@, skill_dir@)
        }),
{
    let mut create: Vec<String> = Vec::new();
    if state.skill_dir.is_some() {
        assert(texts(create@) =~= Seq::<Seq<char>>::empty());
        return create;
    }
    if state.backends.neutts {
        create.push(join(skill_dir, "models/neutts"));
        create.push(join(skill_dir, "cache/neutts-wav"));
        create.push(join(skill_dir, "cache/neutts-ref-codes"));
    }
    assert(texts(create@) =~= required_dirs(old(state)@, skill_dir@));
    state.skill_dir = Some(skill_dir.to_owned());
    create
}

/// The data directory: the registered one, or else the working directory.
pub open spec fn data_dir(state: TtsStateView) -> Seq<char> {
    match state.skill_dir {
        Some(dir) => dir,
        None => "."@,
    }
}

/// The data directory in use.
pub fn skill_dir(state: &TtsState) -> (dir: String)
    ensures
        dir@ == data_dir(state@),
{
    match &state.skill_dir {
        Some(dir) => dir.clone(),
        None => ".".to_owned(),
    }
}

/// Where the converted NeuTTS decoder is kept.
pub fn neutts_model_dir(state: &TtsState) -> (dir: String)
    ensures
        dir@ == joined(data_dir(state@), "models/neutts"@),
{
    join(skill_dir(state).as_str(), "models/neutts")
}

/// Where the codes of custom reference voices are kept.
pub fn neutts_ref_code_cache_dir(state: &TtsState) -> (dir: String)
    ensures
        dir@ == joined(data_dir(state@), "cache/neutts-ref-codes"@),
{
    join(skill_dir(state).as_str(), "cache/neutts-ref-codes")
}

/// Where generated audio is kept for repeated playback.
pub fn neutts_wav_cache_dir(state: &TtsState) -> (dir: String)
    ensures
        dir@ == joined(data_dir(state@), "cache/neutts-wav"@),
{
    join(skill_dir(state).as_str(), "cache/neutts-wav")
}

/// Registering twice is registering once: the second directory is ignored.
pub proof fn first_skill_dir_stays(state: TtsStateView, first: Seq<char>, second: Seq<char>)
    ensures
        with_skill_dir(with_skill_dir(state, first), second) == with_skill_dir(state, first),
        state.skill_dir is None ==> data_dir(
            with_skill_dir(with_skill_dir(state, first), second),
        ) == first,
{
}

/// The directories in which models, reference codes and audio are looked up are
/// the directories that registration asks to create.
pub proof fn used_dirs_are_required(state: TtsStateView, dir: Seq<char>)
    requires
        state.skill_dir is None,
        state.backends.neutts,
    ensures
        ({
            let after = with_skill_dir(state, dir);
            let created = required_dirs(state, dir);
            &&& created.contains(joined(data_dir(after), "models/neutts"@))
            &&& created.contains(joined(data_dir(after), "cache/neutts-wav"@))
            &&& created.contains(joined(data_dir(after), "cache/neutts-ref-codes"@))
        }),
{
    let created = required_dirs(state, dir);
    assert(created[0] == joined(dir, "models/neutts"@));
    assert(created[1] == joined(dir, "cache/neutts-wav"@));
    assert(created[2] == joined(dir, "cache/neutts-ref-codes"@));
}

/// A joined path is the directory, then the part below it, with one slash between
/// them: the directory's own, or one put there. The empty directory adds nothing,
/// and a rooted part stands for itself.
pub proof fn join_keeps_both(base: Seq<char>, sub: Seq<char>)
    ensures
        ({
            let path = joined(base, sub);
            let rooted = sub.len() > 0 && sub[0] == '/';
            &&& rooted ==> path == sub
            &&& !rooted && base.len() == 0 ==> path == sub
            &&& !rooted && base.len() > 0 && base.last() == '/' ==> path == base + sub
            &&& !rooted && base.len() > 0 && base.last() != '/' ==> path == base.push('/') + sub
        }),
{
    reveal_strlit("/");
    assert(base.len() > 0 ==> base + "/"@ + sub =~= base.push('/') + sub);
    assert(base.len() == 0 ==> base + sub =~= sub);
}

/// Different parts of one directory have different paths.
pub proof fn join_tells_apart(base: Seq<char>, a: Seq<char>, b: Seq<char>)
    requires
        !(a.len() > 0 && a[0] == '/'),
        !(b.len() > 0 && b[0] == '/'),
        joined(base, a) == joined(base, b),
    ensures
        a == b,
{
    reveal_strlit("/");
    let k = (joined(base, a).len() - a.len()) as int;
    assert(joined(base, a).skip(k) =~= a);
    assert(joined(base, b).skip(k) =~= b);
}

/// Before anything is registered the working directory is used, afterwards the
/// registered one. Registering touches nothing else and asks for exactly three
/// directories, or for none where NeuTTS is missing.
pub proof fn registration_sets_data_dir(state: TtsStateView, dir: Seq<char>)
    ensures
        state.skill_dir is None ==> data_dir(state) == "."@,
        state.skill_dir is Some ==> data_dir(state) == state.skill_dir->0,
        state.skill_dir is None ==> with_skill_dir(state, dir).skill_dir == Some(dir),
        state.skill_dir is Some ==> with_skill_dir(state, dir) == state,
        with_skill_dir(state, dir) == (TtsStateView {
            skill_dir: with_skill_dir(state, dir).skill_dir,
            ..state
        }),
        state.backends.neutts ==> required_dirs(state, dir).len() == 3,
        !state.backends.neutts ==> required_dirs(state, dir).len() == 0,
{
}

} // verus!
