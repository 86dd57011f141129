//! The NeuTTS presets: voices that come with the engine.

use vstd::prelude::*;
use vstd::string::*;

use crate::state::TtsState;
use crate::text::same_text;

verus! {

/// The names of the NeuTTS presets.
pub open spec fn preset_names() -> Seq<Seq<char>> {
    seq!["jo"@, "dave"@, "greta"@, "juliette"@, "mateo"@]
}

/// The names of the NeuTTS presets, in the order in which they are offered.
fn neutts_preset_names() -> (names: Vec<&'static str>)
    ensures
        names@.map_values(|n: &'static str| n@) == preset_names(),
{
    let mut names: Vec<&'static str> = Vec::new();
    names.push("jo");
    names.push("dave");
    names.push("greta");
    names.push("juliette");
    names.push("mateo");
    assert(names@.map_values(|n: &'static str| n@) =~= preset_names());
    names
}

/// Tests whether a name is that of a NeuTTS preset.
pub fn is_neutts_preset(name: &str) -> (preset: bool)
    ensures
        preset == preset_names().contains(name@),
{
    let names = neutts_preset_names();
    let ghost all = names@.map_values(|n: &'static str| n@);
    let mut i: usize = 0;
    while i < names.len()
        invariant
            i <= names@.len(),
            all == names@.map_values(|n: &'static str| n@),
            all == preset_names(),
            forall|j: int| 0 <= j < i ==> all[j] != name@,
        decreases names@.len() - i,
    {
        assert(all[i as int] == names@[i as int]@);
        if same_text(names[i], name) {
            return true;
        }
        i = i + 1;
    }
    false
}

/// A NeuTTS preset as it is offered to the user.
#[derive(Debug, PartialEq, Eq)]
pub struct NeuttsVoice {
    pub id: String,
    pub lang: String,
    pub flag: String,
    pub gender: String,
}

/// A [`NeuttsVoice`] as mathematical text.
#[verifier::ext_equal]
pub struct NeuttsVoiceView {
    pub id: Seq<char>,
    pub lang: Seq<char>,
    pub flag: Seq<char>,
    pub gender: Seq<char>,
}

impl View for NeuttsVoice {
    type V = NeuttsVoiceView;

    open spec fn view(&self) -> NeuttsVoiceView {
        NeuttsVoiceView {
            id: self.id@,
            lang: self.lang@,
            flag: self.flag@,
            gender: self.gender@,
        }
    }
}

/// The presets with their language, flag and gender.
pub open spec fn preset_voices() -> Seq<NeuttsVoiceView> {
    seq![
        NeuttsVoiceView { id: "jo"@, lang: "en-us"@, flag: "🇺🇸"@, gender: "♀"@ },
        NeuttsVoiceView { id: "dave"@, lang: "en-us"@, flag: "🇺🇸"@, gender: "♂"@ },
        NeuttsVoiceView { id: "greta"@, lang: "de"@, flag: "🇩🇪"@, gender: "♀"@ },
        NeuttsVoiceView { id: "juliette"@, lang: "fr-fr"@, flag: "🇫🇷"@, gender: "♀"@ },
        NeuttsVoiceView { id: "mateo"@, lang: "es"@, flag: "🇪🇸"@, gender: "♂"@ },
    ]
}

/// Builds one entry of the list of presets.
fn voice(id: &str, lang: &str, flag: &str, gender: &str) -> (v: NeuttsVoice)
    ensures
        v@ == (NeuttsVoiceView { id: id@, lang: lang@, flag: flag@, gender: gender@ }),
{
    NeuttsVoice {
        id: id.to_owned(),
        lang: lang.to_owned(),
        flag: flag.to_owned(),
        gender: gender.to_owned(),
    }
}

/// Lists the NeuTTS presets: none where NeuTTS is missing.
pub fn tts_list_neutts_voices(state: &TtsState) -> (voices: Vec<NeuttsVoice>)
    ensures
        voices@.map_values(|v: NeuttsVoice| v@) == (if state@.backends.neutts {
            preset_voices()
        } else {
            Seq::empty()
        }),
{
    let mut voices: Vec<NeuttsVoice> = Vec::new();
    if state.backends.neutts {
        voices.push(voice("jo", "en-us", "🇺🇸", "♀"));
        voices.push(voice("dave", "en-us", "🇺🇸", "♂"));
        voices.push(voice("greta", "de", "🇩🇪", "♀"));
        voices.push(voice("juliette", "fr-fr", "🇫🇷", "♀"));
        voices.push(voice("mateo", "es", "🇪🇸", "♂"));
        assert(voices@.map_values(|v: NeuttsVoice| v@) =~= preset_voices());
    } else {
        assert(voices@.map_values(|v: NeuttsVoice| v@) =~= Seq::<NeuttsVoiceView>::empty());
    }
    voices
}

/// The list of presets names exactly the presets, each once, in their order.
pub proof fn preset_voices_are_presets()
    ensures
        preset_voices().map_values(|v: NeuttsVoiceView| v.id) == preset_names(),
        preset_names().no_duplicates(),
{
    assert(preset_voices().map_values(|v: NeuttsVoiceView| v.id) =~= preset_names());
    reveal_strlit("jo");
    reveal_strlit("dave");
    reveal_strlit("greta");
    reveal_strlit("juliette");
    reveal_strlit("mateo");
    let names = preset_names();
    assert("greta"@[0] != "mateo"@[0]);
    assert forall|i: int, j: int| 0 <= i < names.len() && 0 <= j < names.len() && i != j implies names[i]
        != names[j] by {
        assert(names[0].len() == 2 && names[1].len() == 4 && names[2].len() == 5);
        assert(names[3].len() == 8 && names[4].len() == 5);
        assert(names[2] != names[4]);
    }
}

/// The presets are these five, and no other name is one.
pub proof fn presets_are_these(name: Seq<char>)
    ensures
        preset_names().contains(name) <==> {
            ||| name == "jo"@
            ||| name == "dave"@
            ||| name == "greta"@
            ||| name == "juliette"@
            ||| name == "mateo"@
        },
        preset_names().len() == 5,
{
    let names = preset_names();
    assert(names[0] == "jo"@);
    assert(names[1] == "dave"@);
    assert(names[2] == "greta"@);
    assert(names[3] == "juliette"@);
    assert(names[4] == "mateo"@);
}

/// Each preset is offered once, with its language, its flag and its gender.
pub proof fn presets_are_offered_as_they_speak()
    ensures
        ({
            let v = preset_voices();
            &&& v.len() == 5
            &&& v[0].id == "jo"@ && v[0].lang == "en-us"@ && v[0].flag == "🇺🇸"@ && v[0].gender
                == "♀"@
            &&& v[1].id == "dave"@ && v[1].lang == "en-us"@ && v[1].flag == "🇺🇸"@ && v[1].gender
                == "♂"@
            &&& v[2].id == "greta"@ && v[2].lang == "de"@ && v[2].flag == "🇩🇪"@ && v[2].gender
                == "♀"@
            &&& v[3].id == "juliette"@ && v[3].lang == "fr-fr"@ && v[3].flag == "🇫🇷"@
                && v[3].gender == "♀"@
            &&& v[4].id == "mateo"@ && v[4].lang == "es"@ && v[4].flag == "🇪🇸"@ && v[4].gender
                == "♂"@
        }),
{
}

/// The view of an offered preset shows every part as it is.
pub proof fn offered_preset_is_seen_in_full(voice: NeuttsVoice)
    ensures
        voice@.id == voice.id@ && voice@.lang == voice.lang@,
        voice@.flag == voice.flag@ && voice@.gender == voice.gender@,
{
}

} // verus!
