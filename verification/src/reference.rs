//! Where the reference of a NeuTTS voice comes from: a preset, a recording of
//! the user's, or nowhere, in which case the model speaks with its own voice.
//!
//! [`load_ref_codes`] opens the search; [`VoiceLoad::step`] takes the outcome of
//! the last action and names the next one.

use vstd::prelude::*;
use vstd::string::*;

use crate::paths::{data_dir, joined, neutts_ref_code_cache_dir};
use crate::state::{opt_text, TtsState, TtsStateView};
use crate::text::{trim, trimmed};

verus! {

/// A reference voice: its codes, the words that they speak, and the name under
/// which audio in this voice is cached.
#[derive(Debug, PartialEq, Eq)]
pub struct VoiceRef {
    pub codes: Vec<i32>,
    pub text: String,
    pub key: String,
}

/// A [`VoiceRef`] as mathematical text.
#[verifier::ext_equal]
pub struct VoiceRefView {
    pub codes: Seq<i32>,
    pub text: Seq<char>,
    pub key: Seq<char>,
}

impl View for VoiceRef {
    type V = VoiceRefView;

    open spec fn view(&self) -> VoiceRefView {
        VoiceRefView { codes: self.codes@, text: self.text@, key: self.key@ }
    }
}

/// What the search waits for, and what it found.
#[derive(Debug, PartialEq, Eq)]
pub enum VoiceLoad {
    /// The codes of a preset, whose words are at `words`.
    PresetCodes { preset: String, words: String },
    /// The words of a preset.
    PresetWords { preset: String, codes: Vec<i32> },
    /// The hash of a recording; `dir` caches codes.
    Hash { wav: String, text: String, dir: String },
    /// The cached codes of a recording.
    CachedCodes { wav: String, text: String, key: String },
    /// The codes of a recording, to be stored where there is a cache.
    Codes { wav: String, text: String, key: String, cache: bool },
    /// Nothing: the voice is known.
    Found,
}

/// A [`VoiceLoad`] as mathematical text.
#[verifier::ext_equal]
pub enum VoiceLoadView {
    PresetCodes { preset: Seq<char>, words: Seq<char> },
    PresetWords { preset: Seq<char>, codes: Seq<i32> },
    Hash { wav: Seq<char>, text: Seq<char>, dir: Seq<char> },
    CachedCodes { wav: Seq<char>, text: Seq<char>, key: Seq<char> },
    Codes { wav: Seq<char>, text: Seq<char>, key: Seq<char>, cache: bool },
    Found,
}

impl View for VoiceLoad {
    type V = VoiceLoadView;

    open spec fn view(&self) -> VoiceLoadView {
        match *self {
            VoiceLoad::PresetCodes { preset, words } => VoiceLoadView::PresetCodes {
                preset: preset@,
                words: words@,
            },
            VoiceLoad::PresetWords { preset, codes } => VoiceLoadView::PresetWords {
                preset: preset@,
                codes: codes@,
            },
            VoiceLoad::Hash { wav, text, dir } => VoiceLoadView::Hash {
                wav: wav@,
                text: text@,
                dir: dir@,
            },
            VoiceLoad::CachedCodes { wav, text, key } => VoiceLoadView::CachedCodes {
                wav: wav@,
                text: text@,
                key: key@,
            },
            VoiceLoad::Codes { wav, text, key, cache } => VoiceLoadView::Codes {
                wav: wav@,
                text: text@,
                key: key@,
                cache,
            },
            VoiceLoad::Found => VoiceLoadView::Found,
        }
    }
}

/// The outcome of an action.
#[derive(Debug, PartialEq, Eq)]
pub enum VoiceEvent {
    /// The codes of a preset, unless they could not be read.
    PresetCodes { codes: Option<Vec<i32>> },
    /// The words of a preset, unless they could not be read.
    PresetWords { words: Option<String> },
    /// The hash of a recording, unless it could not be read.
    Hashed { hash: Option<String> },
    /// Whether the cache of codes is usable, and the codes that it holds.
    LookedUp { cache: bool, codes: Option<Vec<i32>> },
    /// The codes of a recording, unless it could not be encoded.
    Encoded { codes: Option<Vec<i32>> },
}

/// A [`VoiceEvent`] as mathematical text.
#[verifier::ext_equal]
pub enum VoiceEventView {
    PresetCodes { codes: Option<Seq<i32>> },
    PresetWords { words: Option<Seq<char>> },
    Hashed { hash: Option<Seq<char>> },
    LookedUp { cache: bool, codes: Option<Seq<i32>> },
    Encoded { codes: Option<Seq<i32>> },
}

/// Codes that may be missing.
pub open spec fn opt_codes(codes: Option<Vec<i32>>) -> Option<Seq<i32>> {
    match codes {
        Some(c) => Some(c@),
        None => None,
    }
}

impl View for VoiceEvent {
    type V = VoiceEventView;

    open spec fn view(&self) -> VoiceEventView {
        match *self {
            VoiceEvent::PresetCodes { codes } => VoiceEventView::PresetCodes {
                codes: opt_codes(codes),
            },
            VoiceEvent::PresetWords { words } => VoiceEventView::PresetWords {
                words: opt_text(words),
            },
            VoiceEvent::Hashed { hash } => VoiceEventView::Hashed { hash: opt_text(hash) },
            VoiceEvent::LookedUp { cache, codes } => VoiceEventView::LookedUp {
                cache,
                codes: opt_codes(codes),
            },
            VoiceEvent::Encoded { codes } => VoiceEventView::Encoded { codes: opt_codes(codes) },
        }
    }
}

/// The work to do next.
#[derive(Debug, PartialEq, Eq)]
pub enum VoiceAction {
    /// Read the codes of a preset.
    ReadPresetCodes { path: String },
    /// Read the words of a preset.
    ReadPresetWords { path: String },
    /// Hash a recording.
    HashWav { wav: String },
    /// Open the cache of codes in `dir` and look a recording up.
    LookUpCodes { dir: String, wav: String },
    /// Encode a recording.
    EncodeWav { wav: String },
    /// Use the voice. Where `store` names a recording, first store the codes in
    /// the cache under it.
    Use { voice: VoiceRef, store: Option<String> },
}

/// A [`VoiceAction`] as mathematical text.
#[verifier::ext_equal]
pub enum VoiceActionView {
    ReadPresetCodes { path: Seq<char> },
    ReadPresetWords { path: Seq<char> },
    HashWav { wav: Seq<char> },
    LookUpCodes { dir: Seq<char>, wav: Seq<char> },
    EncodeWav { wav: Seq<char> },
    Use { voice: VoiceRefView, store: Option<Seq<char>> },
}

impl View for VoiceAction {
    type V = VoiceActionView;

    open spec fn view(&self) -> VoiceActionView {
        match *self {
            VoiceAction::ReadPresetCodes { path } => VoiceActionView::ReadPresetCodes {
                path: path@,
            },
            VoiceAction::ReadPresetWords { path } => VoiceActionView::ReadPresetWords {
                path: path@,
            },
            VoiceAction::HashWav { wav } => VoiceActionView::HashWav { wav: wav@ },
            VoiceAction::LookUpCodes { dir, wav } => VoiceActionView::LookUpCodes {
                dir: dir@,
                wav: wav@,
            },
            VoiceAction::EncodeWav { wav } => VoiceActionView::EncodeWav { wav: wav@ },
            VoiceAction::Use { voice, store } => VoiceActionView::Use {
                voice: voice@,
                store: opt_text(store),
            },
        }
    }
}

/// The model's own voice.
pub open spec fn builtin_voice() -> VoiceRefView {
    VoiceRefView { codes: Seq::empty(), text: Seq::empty(), key: "default"@ }
}

/// The voice of a preset. Its words count without the white space around them.
pub open spec fn preset_voice(
    preset: Seq<char>,
    codes: Seq<i32>,
    words: Option<Seq<char>>,
) -> VoiceRefView {
    VoiceRefView {
        codes,
        text: match words {
            Some(w) => trimmed(w),
            None => Seq::empty(),
        },
        key: preset,
    }
}

/// The name of the voice of a recording with the given hash.
pub open spec fn custom_key(hash: Seq<char>) -> Seq<char> {
    "custom-"@ + hash
}

/// What a search has decided: what it waits for, and what to do.
pub type VoiceTurn = (VoiceLoadView, VoiceActionView);

/// A search that ended.
pub open spec fn found(voice: VoiceRefView, store: Option<Seq<char>>) -> VoiceTurn {
    (VoiceLoadView::Found, VoiceActionView::Use { voice, store })
}

/// How the search for a voice starts. A preset comes before a recording.
pub open spec fn voice_start(
    state: TtsStateView,
    samples_dir: Seq<char>,
    voice_preset: Seq<char>,
    ref_wav_path: Seq<char>,
    ref_text: Seq<char>,
) -> VoiceTurn {
    if voice_preset.len() > 0 {
        (
            VoiceLoadView::PresetCodes {
                preset: voice_preset,
                words: samples_dir + "/"@ + voice_preset + ".txt"@,
            },
            VoiceActionView::ReadPresetCodes {
                path: samples_dir + "/"@ + voice_preset + ".npy"@,
            },
        )
    } else if ref_wav_path.len() > 0 {
        (
            VoiceLoadView::Hash {
                wav: ref_wav_path,
                text: ref_text,
                dir: joined(data_dir(state), "cache/neutts-ref-codes"@),
            },
            VoiceActionView::HashWav { wav: ref_wav_path },
        )
    } else {
        found(builtin_voice(), None)
    }
}

/// Whether an event can be the outcome of what a search waits for.
pub open spec fn voice_expects(load: VoiceLoadView, event: VoiceEventView) -> bool {
    match load {
        VoiceLoadView::PresetCodes { .. } => event is PresetCodes,
        VoiceLoadView::PresetWords { .. } => event is PresetWords,
        VoiceLoadView::Hash { .. } => event is Hashed,
        VoiceLoadView::CachedCodes { .. } => event is LookedUp,
        VoiceLoadView::Codes { .. } => event is Encoded,
        VoiceLoadView::Found => false,
    }
}

/// What a search does upon an event that it waits for.
pub open spec fn voice_turn(load: VoiceLoadView, event: VoiceEventView) -> VoiceTurn {
    match (load, event) {
        (
            VoiceLoadView::PresetCodes { preset, words },
            VoiceEventView::PresetCodes { codes },
        ) => match codes {
            Some(codes) => (
                VoiceLoadView::PresetWords { preset, codes },
                VoiceActionView::ReadPresetWords { path: words },
            ),
            None => found(builtin_voice(), None),
        },
        (
            VoiceLoadView::PresetWords { preset, codes },
            VoiceEventView::PresetWords { words },
        ) => found(preset_voice(preset, codes, words), None),
        (VoiceLoadView::Hash { wav, text, dir }, VoiceEventView::Hashed { hash }) => match hash {
            Some(hash) => (
                VoiceLoadView::CachedCodes { wav, text, key: custom_key(hash) },
                VoiceActionView::LookUpCodes { dir, wav },
            ),
            None => found(builtin_voice(), None),
        },
        (
            VoiceLoadView::CachedCodes { wav, text, key },
            VoiceEventView::LookedUp { cache, codes },
        ) => match codes {
            Some(codes) => found(VoiceRefView { codes, text, key }, None),
            None => (
                VoiceLoadView::Codes { wav, text, key, cache },
                VoiceActionView::EncodeWav { wav },
            ),
        },
        (
            VoiceLoadView::Codes { wav, text, key, cache },
            VoiceEventView::Encoded { codes },
        ) => match codes {
            Some(codes) => found(
                VoiceRefView { codes, text, key },
                if cache {
                    Some(wav)
                } else {
                    None
                },
            ),
            None => found(builtin_voice(), None),
        },
        (_, _) => arbitrary(),
    }
}

/// Ends a search with a voice.
fn use_voice(voice: VoiceRef, store: Option<String>) -> (turn: (VoiceLoad, VoiceAction))
    ensures
        (turn.0@, turn.1@) == found(voice@, opt_text(store)),
{
    (VoiceLoad::Found, VoiceAction::Use { voice, store })
}

/// Ends a search with the model's own voice.
fn use_builtin() -> (turn: (VoiceLoad, VoiceAction))
    ensures
        (turn.0@, turn.1@) == found(builtin_voice(), None),
{
    let codes: Vec<i32> = Vec::new();
    assert(codes@ =~= Seq::<i32>::empty());
    use_voice(VoiceRef { codes, text: String::new(), key: "default".to_owned() }, None)
}

/// Opens the search for a voice: the preset if one is named, else the recording
/// if there is one, else the model's own voice. Presets are in `samples_dir`.
pub fn load_ref_codes(
    state: &TtsState,
    samples_dir: &str,
    voice_preset: &str,
    ref_wav_path: &str,
    ref_text: &str,
) -> (turn: (VoiceLoad, VoiceAction))
    ensures
        (turn.0@, turn.1@) == voice_start(
            state@,
            samples_dir@,
            voice_preset@,
            ref_wav_path@,
            ref_text@,
        ),
{
    if !voice_preset.is_empty() {
        let codes = samples_dir.to_owned().concat("/").concat(voice_preset).concat(".npy");
        let words = samples_dir.to_owned().concat("/").concat(voice_preset).concat(".txt");
        (
            VoiceLoad::PresetCodes { preset: voice_preset.to_owned(), words },
            VoiceAction::ReadPresetCodes { path: codes },
        )
    } else if !ref_wav_path.is_empty() {
        (
            VoiceLoad::Hash {
                wav: ref_wav_path.to_owned(),
                text: ref_text.to_owned(),
                dir: neutts_ref_code_cache_dir(state),
            },
            VoiceAction::HashWav { wav: ref_wav_path.to_owned() },
        )
    } else {
        use_builtin()
    }
}

impl VoiceLoad {
    /// Decides upon the outcome of the last action what to do next.
    pub fn step(self, event: VoiceEvent) -> (turn: (VoiceLoad, VoiceAction))
        requires
            voice_expects(self@, event@),
        ensures
            (turn.0@, turn.1@) == voice_turn(self@, event@),
    {
        match (self, event) {
            (
                VoiceLoad::PresetCodes { preset, words },
                VoiceEvent::PresetCodes { codes },
            ) => match codes {
                Some(codes) => (
                    VoiceLoad::PresetWords { preset, codes },
                    VoiceAction::ReadPresetWords { path: words },
                ),
                None => use_builtin(),
            },
            (VoiceLoad::PresetWords { preset, codes }, VoiceEvent::PresetWords { words }) => {
                let text = match words {
                    Some(words) => trim(words.as_str()),
                    None => String::new(),
                };
                use_voice(VoiceRef { codes, text, key: preset }, None)
            },
            (VoiceLoad::Hash { wav, text, dir }, VoiceEvent::Hashed { hash }) => match hash {
                Some(hash) => {
                    let key = "custom-".to_owned().concat(hash.as_str());
                    (
                        VoiceLoad::CachedCodes { wav: wav.clone(), text, key },
                        VoiceAction::LookUpCodes { dir, wav },
                    )
                },
                None => use_builtin(),
            },
            (
                VoiceLoad::CachedCodes { wav, text, key },
                VoiceEvent::LookedUp { cache, codes },
            ) => match codes {
                Some(codes) => use_voice(VoiceRef { codes, text, key }, None),
                None => (
                    VoiceLoad::Codes { wav: wav.clone(), text, key, cache },
                    VoiceAction::EncodeWav { wav },
                ),
            },
            (
                VoiceLoad::Codes { wav, text, key, cache },
                VoiceEvent::Encoded { codes },
            ) => match codes {
                Some(codes) => use_voice(
                    VoiceRef { codes, text, key },
                    if cache {
                        Some(wav)
                    } else {
                        None
                    },
                ),
                None => use_builtin(),
            },
            (_, _) => vstd::pervasive::unreached(),
        }
    }
}

/// Whether a search is one for the given settings, whose recording has the given
/// hash, or none where it cannot be hashed.
pub open spec fn searches(
    load: VoiceLoadView,
    voice_preset: Seq<char>,
    ref_wav_path: Seq<char>,
    ref_text: Seq<char>,
    hash: Option<Seq<char>>,
) -> bool {
    let custom = voice_preset.len() == 0 && ref_wav_path.len() > 0;
    match load {
        VoiceLoadView::PresetCodes { preset, .. } => preset.len() > 0 && preset == voice_preset,
        VoiceLoadView::PresetWords { preset, .. } => preset.len() > 0 && preset == voice_preset,
        VoiceLoadView::Hash { wav, text, .. } => custom && wav == ref_wav_path && text == ref_text,
        VoiceLoadView::CachedCodes { wav, text, key } => {
            custom && wav == ref_wav_path && text == ref_text && hash is Some && key == custom_key(
                hash->0,
            )
        },
        VoiceLoadView::Codes { wav, text, key, .. } => {
            custom && wav == ref_wav_path && text == ref_text && hash is Some && key == custom_key(
                hash->0,
            )
        },
        VoiceLoadView::Found => true,
    }
}

/// The voices that settings can lead to: the preset that they name, the
/// recording under its hash if they name no preset, or the model's own voice.
pub open spec fn answers(
    voice: VoiceRefView,
    voice_preset: Seq<char>,
    ref_wav_path: Seq<char>,
    ref_text: Seq<char>,
    hash: Option<Seq<char>>,
) -> bool {
    ||| voice == builtin_voice()
    ||| voice_preset.len() > 0 && voice.key == voice_preset
    ||| voice_preset.len() == 0 && ref_wav_path.len() > 0 && hash is Some && voice.key
        == custom_key(hash->0) && voice.text == ref_text
}

/// How many decisions a search can still need.
pub open spec fn searches_left(load: VoiceLoadView) -> nat {
    match load {
        VoiceLoadView::PresetCodes { .. } => 2,
        VoiceLoadView::PresetWords { .. } => 1,
        VoiceLoadView::Hash { .. } => 3,
        VoiceLoadView::CachedCodes { .. } => 2,
        VoiceLoadView::Codes { .. } => 1,
        VoiceLoadView::Found => 0,
    }
}

/// A search starts as one for its settings, and uses the model's own voice at
/// once where they name neither a preset nor a recording.
pub proof fn search_starts(
    state: TtsStateView,
    samples_dir: Seq<char>,
    voice_preset: Seq<char>,
    ref_wav_path: Seq<char>,
    ref_text: Seq<char>,
    hash: Option<Seq<char>>,
)
    ensures
        ({
            let (load, action) = voice_start(
                state,
                samples_dir,
                voice_preset,
                ref_wav_path,
                ref_text,
            );
            &&& searches(load, voice_preset, ref_wav_path, ref_text, hash)
            &&& load is Found <==> voice_preset.len() == 0 && ref_wav_path.len() == 0
            &&& load is Found ==> action == (VoiceActionView::Use {
                voice: builtin_voice(),
                store: None,
            })
        }),
{
}

/// A search stays one for its settings, comes nearer to its end with every
/// decision, and ends with a voice that they can lead to: a recording that
/// cannot be hashed leads to the model's own voice. Only codes that were encoded
/// anew are stored, and only for the recording of the settings.
pub proof fn search_answers(
    load: VoiceLoadView,
    event: VoiceEventView,
    voice_preset: Seq<char>,
    ref_wav_path: Seq<char>,
    ref_text: Seq<char>,
    hash: Option<Seq<char>>,
)
    requires
        voice_expects(load, event),
        searches(load, voice_preset, ref_wav_path, ref_text, hash),
        event is Hashed ==> event->hash == hash,
    ensures
        ({
            let (next, action) = voice_turn(load, event);
            &&& searches(next, voice_preset, ref_wav_path, ref_text, hash)
            &&& searches_left(next) < searches_left(load)
            &&& next is Found <==> action is Use
            &&& action is Use ==> answers(
                action->voice,
                voice_preset,
                ref_wav_path,
                ref_text,
                hash,
            )
            &&& event is Hashed && hash is None ==> action == (VoiceActionView::Use {
                voice: builtin_voice(),
                store: None,
            })
            &&& action is Use && action->store is Some ==> event is Encoded
                && action->store == Some(ref_wav_path)
        }),
{
}

/// The key of a voice tells where it comes from: the preset, the recording by
/// its hash, or the model's own voice. As long as no preset is called so, the
/// key `default` is that of the model's own voice, without codes and words.
pub proof fn key_tells_origin(
    voice: VoiceRefView,
    voice_preset: Seq<char>,
    ref_wav_path: Seq<char>,
    ref_text: Seq<char>,
    hash: Option<Seq<char>>,
)
    requires
        answers(voice, voice_preset, ref_wav_path, ref_text, hash),
        voice_preset != "default"@,
    ensures
        ({
            ||| voice.key == "default"@
            ||| voice_preset.len() > 0 && voice.key == voice_preset
            ||| voice_preset.len() == 0 && hash is Some && voice.key == custom_key(hash->0)
        }),
        voice.key == "default"@ <==> voice == builtin_voice(),
{
    reveal_strlit("default");
    reveal_strlit("custom-");
    if hash is Some {
        assert(custom_key(hash->0)[0] == 'c');
    }
    assert("default"@[0] == 'd');
}

/// A preset is read from the two files that bear its name in the directory of the
/// samples, and the voice that is used has the codes that were read, the words
/// that were read without the white space around them, and the preset's name. A
/// preset without words has none; one without codes gives way to the model's own
/// voice. Whatever recording is set is not looked at.
pub proof fn preset_speaks_from_its_files(
    state: TtsStateView,
    samples_dir: Seq<char>,
    preset: Seq<char>,
    wav: Seq<char>,
    ref_text: Seq<char>,
    codes: Seq<i32>,
    words: Seq<char>,
)
    requires
        preset.len() > 0,
    ensures
        ({
            let start = voice_start(state, samples_dir, preset, wav, ref_text);
            let read = voice_turn(start.0, VoiceEventView::PresetCodes { codes: Some(codes) });
            let unread = voice_turn(start.0, VoiceEventView::PresetCodes { codes: None });
            let used = voice_turn(read.0, VoiceEventView::PresetWords { words: Some(words) });
            let mute = voice_turn(read.0, VoiceEventView::PresetWords { words: None });
            let none = Seq::<char>::empty();
            &&& start.1 == (VoiceActionView::ReadPresetCodes {
                path: samples_dir + "/"@ + preset + ".npy"@,
            })
            &&& read.1 == (VoiceActionView::ReadPresetWords {
                path: samples_dir + "/"@ + preset + ".txt"@,
            })
            &&& used.1 == (VoiceActionView::Use {
                voice: VoiceRefView { codes, text: trimmed(words), key: preset },
                store: None,
            })
            &&& mute.1 == (VoiceActionView::Use {
                voice: VoiceRefView { codes, text: none, key: preset },
                store: None,
            })
            &&& unread.1 == (VoiceActionView::Use {
                voice: VoiceRefView { codes: Seq::empty(), text: none, key: "default"@ },
                store: None,
            })
        }),
{
}

/// Two presets never read the same file, neither for codes nor for words.
pub proof fn presets_share_no_file(
    state: TtsStateView,
    samples_dir: Seq<char>,
    a: Seq<char>,
    b: Seq<char>,
    codes: Seq<i32>,
)
    requires
        a.len() > 0,
        b.len() > 0,
        a != b,
    ensures
        ({
            let none = Seq::<char>::empty();
            let start_a = voice_start(state, samples_dir, a, none, none);
            let start_b = voice_start(state, samples_dir, b, none, none);
            let read = VoiceEventView::PresetCodes { codes: Some(codes) };
            let words_a = voice_turn(start_a.0, read).1;
            let words_b = voice_turn(start_b.0, read).1;
            &&& start_a.1 is ReadPresetCodes && start_b.1 is ReadPresetCodes
            &&& start_a.1 != start_b.1
            &&& words_a is ReadPresetWords && words_b is ReadPresetWords
            &&& words_a != words_b
        }),
{
    between_ends(samples_dir + "/"@, a, b, ".npy"@);
    between_ends(samples_dir + "/"@, a, b, ".txt"@);
}

/// Texts that agree around different middles differ.
proof fn between_ends(front: Seq<char>, a: Seq<char>, b: Seq<char>, back: Seq<char>)
    requires
        a != b,
    ensures
        front + a + back != front + b + back,
{
    if front + a + back == front + b + back {
        let x = front + a + back;
        let y = front + b + back;
        let n = front.len() as int;
        assert(x.len() == front.len() + a.len() + back.len());
        assert(y.len() == front.len() + b.len() + back.len());
        assert(x.subrange(n, n + a.len()) =~= a);
        assert(y.subrange(n, n + b.len()) =~= b);
    }
}

/// A recording is hashed, looked up in the cache of codes in the data directory,
/// and encoded only where it is not there. The voice has the codes that were found
/// or encoded, the words of the settings, and a name made of the hash. Codes that
/// were encoded are stored under the recording where there is a cache. Where it
/// cannot be hashed or encoded, the model's own voice speaks.
pub proof fn recording_speaks_by_its_codes(
    state: TtsStateView,
    samples_dir: Seq<char>,
    wav: Seq<char>,
    ref_text: Seq<char>,
    hash: Seq<char>,
    cache: bool,
    codes: Seq<i32>,
)
    requires
        wav.len() > 0,
    ensures
        ({
            let none = Seq::<char>::empty();
            let start = voice_start(state, samples_dir, none, wav, ref_text);
            let hashed = voice_turn(start.0, VoiceEventView::Hashed { hash: Some(hash) });
            let unhashed = voice_turn(start.0, VoiceEventView::Hashed { hash: None });
            let hit = voice_turn(
                hashed.0,
                VoiceEventView::LookedUp { cache, codes: Some(codes) },
            );
            let miss = voice_turn(hashed.0, VoiceEventView::LookedUp { cache, codes: None });
            let encoded = voice_turn(miss.0, VoiceEventView::Encoded { codes: Some(codes) });
            let unencoded = voice_turn(miss.0, VoiceEventView::Encoded { codes: None });
            let voice = VoiceRefView { codes, text: ref_text, key: "custom-"@ + hash };
            let own = VoiceActionView::Use {
                voice: VoiceRefView { codes: Seq::empty(), text: none, key: "default"@ },
                store: None,
            };
            &&& start.1 == (VoiceActionView::HashWav { wav })
            &&& unhashed.1 == own
            &&& hashed.1 == (VoiceActionView::LookUpCodes {
                dir: joined(data_dir(state), "cache/neutts-ref-codes"@),
                wav,
            })
            &&& hit.1 == (VoiceActionView::Use { voice, store: None })
            &&& miss.1 == (VoiceActionView::EncodeWav { wav })
            &&& cache ==> encoded.1 == (VoiceActionView::Use { voice, store: Some(wav) })
            &&& !cache ==> encoded.1 == (VoiceActionView::Use { voice, store: None })
            &&& unencoded.1 == own
        }),
{
}

/// Without a preset and a recording the model speaks with its own voice at once:
/// no codes, no words, and the key `default`.
pub proof fn nothing_set_is_own_voice(
    state: TtsStateView,
    samples_dir: Seq<char>,
    ref_text: Seq<char>,
)
    ensures
        ({
            let none = Seq::<char>::empty();
            voice_start(state, samples_dir, none, none, ref_text).1 == (VoiceActionView::Use {
                voice: VoiceRefView { codes: Seq::empty(), text: none, key: "default"@ },
                store: None,
            })
        }),
{
}

/// Recordings with different hashes are voices with different keys.
pub proof fn hashes_tell_recordings_apart(a: Seq<char>, b: Seq<char>)
    requires
        a != b,
    ensures
        custom_key(a) != custom_key(b),
{
    between_ends("custom-"@, a, b, Seq::empty());
    assert("custom-"@ + a + Seq::<char>::empty() =~= custom_key(a));
    assert("custom-"@ + b + Seq::<char>::empty() =~= custom_key(b));
}

/// The views of a search, its events and its actions show every part as it is.
pub proof fn search_is_seen_in_full(
    voice: VoiceRef,
    codes: Vec<i32>,
    a: String,
    b: String,
    c: String,
    cache: bool,
    words: Option<String>,
)
    ensures
        voice@.codes == voice.codes@ && voice@.text == voice.text@ && voice@.key == voice.key@,
        (VoiceLoad::PresetCodes { preset: a, words: b })@ == (VoiceLoadView::PresetCodes {
            preset: a@,
            words: b@,
        }),
        (VoiceLoad::PresetWords { preset: a, codes })@ == (VoiceLoadView::PresetWords {
            preset: a@,
            codes: codes@,
        }),
        (VoiceLoad::Hash { wav: a, text: b, dir: c })@ == (VoiceLoadView::Hash {
            wav: a@,
            text: b@,
            dir: c@,
        }),
        (VoiceLoad::CachedCodes { wav: a, text: b, key: c })@ == (VoiceLoadView::CachedCodes {
            wav: a@,
            text: b@,
            key: c@,
        }),
        (VoiceLoad::Codes { wav: a, text: b, key: c, cache })@ == (VoiceLoadView::Codes {
            wav: a@,
            text: b@,
            key: c@,
            cache,
        }),
        (VoiceEvent::PresetCodes { codes: Some(codes) })@ == (VoiceEventView::PresetCodes {
            codes: Some(codes@),
        }),
        (VoiceEvent::PresetCodes { codes: None })@ == (VoiceEventView::PresetCodes {
            codes: None,
        }),
        (VoiceEvent::PresetWords { words })@ == (VoiceEventView::PresetWords {
            words: opt_text(words),
        }),
        (VoiceEvent::Hashed { hash: words })@ == (VoiceEventView::Hashed {
            hash: opt_text(words),
        }),
        (VoiceEvent::LookedUp { cache, codes: Some(codes) })@ == (VoiceEventView::LookedUp {
            cache,
            codes: Some(codes@),
        }),
        (VoiceEvent::LookedUp { cache, codes: None })@ == (VoiceEventView::LookedUp {
            cache,
            codes: None,
        }),
        (VoiceEvent::Encoded { codes: Some(codes) })@ == (VoiceEventView::Encoded {
            codes: Some(codes@),
        }),
        (VoiceEvent::Encoded { codes: None })@ == (VoiceEventView::Encoded { codes: None }),
        (VoiceAction::ReadPresetCodes { path: a })@ == (VoiceActionView::ReadPresetCodes {
            path: a@,
        }),
        (VoiceAction::ReadPresetWords { path: a })@ == (VoiceActionView::ReadPresetWords {
            path: a@,
        }),
        (VoiceAction::HashWav { wav: a })@ == (VoiceActionView::HashWav { wav: a@ }),
        (VoiceAction::LookUpCodes { dir: a, wav: b })@ == (VoiceActionView::LookUpCodes {
            dir: a@,
            wav: b@,
        }),
        (VoiceAction::EncodeWav { wav: a })@ == (VoiceActionView::EncodeWav { wav: a@ }),
        (VoiceAction::Use { voice, store: words })@ == (VoiceActionView::Use {
            voice: voice@,
            store: opt_text(words),
        }),
{
}

/// Whether a search that waits for the outcome of an action takes every outcome.
pub open spec fn takes_outcomes_of(load: VoiceLoadView, action: VoiceActionView) -> bool {
    match action {
        VoiceActionView::ReadPresetCodes { .. } => forall|codes: Option<Seq<i32>>| #[trigger]
            voice_expects(load, (VoiceEventView::PresetCodes { codes })),
        VoiceActionView::ReadPresetWords { .. } => forall|words: Option<Seq<char>>| #[trigger]
            voice_expects(load, (VoiceEventView::PresetWords { words })),
        VoiceActionView::HashWav { .. } => forall|hash: Option<Seq<char>>| #[trigger]
            voice_expects(load, (VoiceEventView::Hashed { hash })),
        VoiceActionView::LookUpCodes { .. } => forall|cache: bool, codes: Option<Seq<i32>>| #[trigger]
            voice_expects(load, (VoiceEventView::LookedUp { cache, codes })),
        VoiceActionView::EncodeWav { .. } => forall|codes: Option<Seq<i32>>| #[trigger]
            voice_expects(load, (VoiceEventView::Encoded { codes })),
        VoiceActionView::Use { .. } => load is Found,
    }
}

/// Every outcome of an action can be handed to the search, from the first on.
pub proof fn search_takes_every_outcome(
    state: TtsStateView,
    samples_dir: Seq<char>,
    voice_preset: Seq<char>,
    ref_wav_path: Seq<char>,
    ref_text: Seq<char>,
    load: VoiceLoadView,
    event: VoiceEventView,
)
    requires
        voice_expects(load, event),
    ensures
        ({
            let start = voice_start(state, samples_dir, voice_preset, ref_wav_path, ref_text);
            takes_outcomes_of(start.0, start.1)
        }),
        takes_outcomes_of(voice_turn(load, event).0, voice_turn(load, event).1),
{
}

} // verus!
