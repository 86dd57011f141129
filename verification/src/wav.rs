//! The audio cache: what a generated utterance is called on disk, and what a
//! stored file plays.

use sha2::Digest;
use vstd::prelude::*;
use vstd::string::*;
use vstd::utf8::*;

use crate::paths::{data_dir, join, joined, neutts_wav_cache_dir};
use crate::state::{opt_text, TtsState, TtsStateView};
use crate::text::{digit_char, hex, hex_text, hex_text_injective, hex_text_len};

verus! {

/// The SHA-256 digest of a message.
pub uninterp spec fn sha256_digest(message: Seq<u8>) -> Seq<u8>;

/// Calls `sha2::Sha256::digest`. Claims that the digest depends on the bytes of
/// the message alone and is 32 bytes long.
#[verifier::external_body]
fn sha256(message: &[u8]) -> (digest: Vec<u8>)
    ensures
        digest@ == sha256_digest(message@),
        digest@.len() == 32,
{
    sha2::Sha256::digest(message).to_vec()
}

/// A byte that occurs in the encoding of no text.
pub const NO_TEXT: u8 = 0xFF;

/// What stands for a model: its repository and, where one was asked for, its
/// GGUF file, with a byte between them that neither can hold.
pub open spec fn model_bytes(backbone_repo: Seq<char>, gguf_file: Option<Seq<char>>) -> Seq<u8> {
    match gguf_file {
        Some(file) => encode_utf8(backbone_repo) + seq![NO_TEXT] + encode_utf8(file),
        None => encode_utf8(backbone_repo),
    }
}

/// What is hashed for one utterance: the model, the voice and the text, with a
/// zero byte between them.
pub open spec fn cache_message(
    backbone_repo: Seq<char>,
    gguf_file: Option<Seq<char>>,
    voice_key: Seq<char>,
    text: Seq<char>,
) -> Seq<u8> {
    model_bytes(backbone_repo, gguf_file) + seq![0u8] + encode_utf8(voice_key) + seq![0u8]
        + encode_utf8(text)
}

/// The file name for a digest.
pub open spec fn wav_file_name(digest: Seq<u8>) -> Seq<char> {
    hex_text(digest) + ".wav"@
}

/// The name of the file with the audio of one utterance.
pub open spec fn utterance_file(
    backbone_repo: Seq<char>,
    gguf_file: Option<Seq<char>>,
    voice_key: Seq<char>,
    text: Seq<char>,
) -> Seq<char> {
    wav_file_name(sha256_digest(cache_message(backbone_repo, gguf_file, voice_key, text)))
}

/// The path of the audio of one utterance.
pub open spec fn wav_path(
    state: TtsStateView,
    backbone_repo: Seq<char>,
    gguf_file: Option<Seq<char>>,
    voice_key: Seq<char>,
    text: Seq<char>,
) -> Seq<char> {
    joined(
        joined(data_dir(state), "cache/neutts-wav"@),
        utterance_file(backbone_repo, gguf_file, voice_key, text),
    )
}

/// Appends bytes to a message.
fn extend(message: &mut Vec<u8>, part: &[u8])
    ensures
        final(message)@ == old(message)@ + part@,
{
    let ghost before = message@;
    let mut i: usize = 0;
    while i < part.len()
        invariant
            i <= part@.len(),
            message@ == before + part@.take(i as int),
        decreases part@.len() - i,
    {
        message.push(part[i]);
        i = i + 1;
        assert(message@ =~= before + part@.take(i as int));
    }
    assert(part@.take(i as int) =~= part@);
}

/// Builds what is hashed for one utterance.
pub fn cache_message_bytes(
    backbone_repo: &str,
    gguf_file: &Option<String>,
    voice_key: &str,
    text: &str,
) -> (message: Vec<u8>)
    ensures
        message@ == cache_message(backbone_repo@, opt_text(*gguf_file), voice_key@, text@),
{
    let mut message: Vec<u8> = Vec::new();
    extend(&mut message, backbone_repo.as_bytes());
    if let Some(file) = gguf_file {
        message.push(NO_TEXT);
        extend(&mut message, file.as_str().as_bytes());
    }
    assert(message@ =~= model_bytes(backbone_repo@, opt_text(*gguf_file)));
    message.push(0);
    extend(&mut message, voice_key.as_bytes());
    message.push(0);
    extend(&mut message, text.as_bytes());
    assert(message@ =~= cache_message(backbone_repo@, opt_text(*gguf_file), voice_key@, text@));
    message
}

/// Names the file for a digest.
pub fn wav_name(digest: &[u8]) -> (name: String)
    ensures
        name@ == wav_file_name(digest@),
{
    hex(digest).concat(".wav")
}

/// The content-addressed path of the audio of one utterance by the model of
/// `backbone_repo`, from `gguf_file` where one was asked for. `voice_key` is the
/// preset, `custom-` and a hash, or `default`. The file is called by the 64
/// digits of a digest and `.wav`.
pub fn wav_cache_path(
    state: &TtsState,
    backbone_repo: &str,
    gguf_file: &Option<String>,
    voice_key: &str,
    text: &str,
) -> (path: String)
    ensures
        path@ == wav_path(state@, backbone_repo@, opt_text(*gguf_file), voice_key@, text@),
        utterance_file(backbone_repo@, opt_text(*gguf_file), voice_key@, text@).len() == 68,
{
    let message = cache_message_bytes(backbone_repo, gguf_file, voice_key, text);
    let digest = sha256(message.as_slice());
    proof {
        hex_text_len(digest@);
        reveal_strlit(".wav");
    }
    join(neutts_wav_cache_dir(state).as_str(), wav_name(digest.as_slice()).as_str())
}

/// No character is encoded with the byte that no text holds, and only the zero
/// character with the zero byte.
proof fn scalar_bytes(s: u32)
    requires
        is_scalar(s),
    ensures
        forall|i: int| 0 <= i < encode_scalar(s).len() ==> encode_scalar(s)[i] != NO_TEXT,
        s != 0 ==> forall|i: int| 0 <= i < encode_scalar(s).len() ==> encode_scalar(s)[i] != 0,
{
    assert((s & 0x7F) as u8 != 0xFF) by (bit_vector);
    assert(s != 0 && s <= 0x7F ==> (s & 0x7F) as u8 != 0) by (bit_vector);
    assert(0xC0 | ((s >> 6) & 0x1F) as u8 != 0 && 0xC0 | ((s >> 6) & 0x1F) as u8 != 0xFF) by (bit_vector);
    assert(0xE0 | ((s >> 12) & 0x0F) as u8 != 0 && 0xE0 | ((s >> 12) & 0x0F) as u8 != 0xFF) by (bit_vector);
    assert(0xF0 | ((s >> 18) & 0x7) as u8 != 0 && 0xF0 | ((s >> 18) & 0x7) as u8 != 0xFF) by (bit_vector);
    assert(0x80 | (s & 0x3F) as u8 != 0 && 0x80 | (s & 0x3F) as u8 != 0xFF) by (bit_vector);
    assert(0x80 | ((s >> 6) & 0x3F) as u8 != 0 && 0x80 | ((s >> 6) & 0x3F) as u8 != 0xFF) by (bit_vector);
    assert(0x80 | ((s >> 12) & 0x3F) as u8 != 0 && 0x80 | ((s >> 12) & 0x3F) as u8 != 0xFF) by (bit_vector);
}

/// A text is encoded without the byte that no text holds and, as long as it is
/// without the zero character, without the zero byte.
proof fn encoding_avoids(chars: Seq<char>, byte: u8)
    requires
        byte == NO_TEXT || byte == 0 && !chars.contains('\0'),
    ensures
        !encode_utf8(chars).contains(byte),
    decreases chars.len(),
{
    if chars.len() > 0 {
        let c = chars[0];
        let s = c as u32;
        assert(chars.contains(c));
        char_is_scalar(c);
        char_u32_cast(c, s);
        scalar_bytes(s);
        let rest = chars.drop_first();
        assert forall|d: char| rest.contains(d) implies chars.contains(d) by {
            let i = choose|i: int| 0 <= i < rest.len() && rest[i] == d;
            assert(chars[i + 1] == d);
        }
        encoding_avoids(rest, byte);
        let first = encode_scalar(s);
        assert forall|i: int| 0 <= i < encode_utf8(chars).len() implies encode_utf8(chars)[i]
            != byte by {
            if i >= first.len() {
                assert(encode_utf8(rest).contains(encode_utf8(rest)[i - first.len()]));
            }
        }
    }
}

/// Byte strings that are the same agree up to the first separator, and beyond.
proof fn split_at(sep: u8, a: Seq<u8>, x: Seq<u8>, b: Seq<u8>, y: Seq<u8>)
    requires
        !a.contains(sep),
        !b.contains(sep),
        a + seq![sep] + x == b + seq![sep] + y,
    ensures
        a == b,
        x == y,
{
    let l = a + seq![sep] + x;
    let r = b + seq![sep] + y;
    if a.len() < b.len() {
        assert(l[a.len() as int] == sep);
        assert(b[a.len() as int] == sep);
        assert(b.contains(sep));
    }
    if b.len() < a.len() {
        assert(r[b.len() as int] == sep);
        assert(a[b.len() as int] == sep);
        assert(a.contains(sep));
    }
    assert(a =~= l.take(a.len() as int));
    assert(b =~= r.take(a.len() as int));
    assert(x =~= l.skip(a.len() as int + 1));
    assert(y =~= r.skip(a.len() as int + 1));
}

/// Different texts have different encodings.
proof fn encoding_injective(a: Seq<char>, b: Seq<char>)
    requires
        encode_utf8(a) == encode_utf8(b),
    ensures
        a == b,
{
    encode_utf8_decode_utf8(a);
    encode_utf8_decode_utf8(b);
}

/// What identifies an utterance: the repository of the model, the GGUF file that
/// was asked for, the voice and the text.
#[verifier::ext_equal]
pub struct Utterance {
    pub backbone_repo: Seq<char>,
    pub gguf_file: Option<Seq<char>>,
    pub voice_key: Seq<char>,
    pub text: Seq<char>,
}

impl Utterance {
    /// What is hashed for the utterance.
    pub open spec fn message(self) -> Seq<u8> {
        cache_message(self.backbone_repo, self.gguf_file, self.voice_key, self.text)
    }

    /// Where the audio of the utterance is.
    pub open spec fn path(self, state: TtsStateView) -> Seq<char> {
        wav_path(state, self.backbone_repo, self.gguf_file, self.voice_key, self.text)
    }

    /// Whether model and voice have names without the zero character.
    pub open spec fn plainly_named(self) -> bool {
        &&& !self.backbone_repo.contains('\0')
        &&& self.gguf_file is Some ==> !self.gguf_file->0.contains('\0')
        &&& !self.voice_key.contains('\0')
    }
}

/// What stands for a model holds no zero byte.
proof fn model_has_no_zero(u: Utterance)
    requires
        u.plainly_named(),
    ensures
        !model_bytes(u.backbone_repo, u.gguf_file).contains(0u8),
{
    encoding_avoids(u.backbone_repo, 0);
    if let Some(file) = u.gguf_file {
        encoding_avoids(file, 0);
        let r = encode_utf8(u.backbone_repo);
        let f = encode_utf8(file);
        let m = model_bytes(u.backbone_repo, u.gguf_file);
        assert forall|i: int| 0 <= i < m.len() implies m[i] != 0 by {
            if i < r.len() {
                assert(r.contains(r[i]));
            } else if i > r.len() {
                assert(f.contains(f[i - r.len() - 1]));
            }
        }
    }
}

/// Different repositories, and different files of one repository, are different
/// models; so are a file and no file.
pub proof fn model_bytes_injective(
    repo_a: Seq<char>,
    file_a: Option<Seq<char>>,
    repo_b: Seq<char>,
    file_b: Option<Seq<char>>,
)
    requires
        model_bytes(repo_a, file_a) == model_bytes(repo_b, file_b),
    ensures
        repo_a == repo_b,
        file_a == file_b,
{
    let a = encode_utf8(repo_a);
    let b = encode_utf8(repo_b);
    encoding_avoids(repo_a, NO_TEXT);
    encoding_avoids(repo_b, NO_TEXT);
    match (file_a, file_b) {
        (Some(fa), Some(fb)) => {
            split_at(NO_TEXT, a, encode_utf8(fa), b, encode_utf8(fb));
            encoding_injective(fa, fb);
        },
        (Some(fa), None) => {
            assert(model_bytes(repo_a, file_a)[a.len() as int] == NO_TEXT);
            assert(b.contains(NO_TEXT));
        },
        (None, Some(fb)) => {
            assert(model_bytes(repo_b, file_b)[b.len() as int] == NO_TEXT);
            assert(a.contains(NO_TEXT));
        },
        (None, None) => {},
    }
    encoding_injective(repo_a, repo_b);
}

/// Any change of model, voice or text changes what is hashed, as long as model
/// and voice names hold no zero character.
pub proof fn cache_message_injective(a: Utterance, b: Utterance)
    requires
        a.plainly_named(),
        b.plainly_named(),
        a.message() == b.message(),
    ensures
        a == b,
{
    model_has_no_zero(a);
    model_has_no_zero(b);
    encoding_avoids(a.voice_key, 0);
    encoding_avoids(b.voice_key, 0);
    let model_a = model_bytes(a.backbone_repo, a.gguf_file);
    let model_b = model_bytes(b.backbone_repo, b.gguf_file);
    let rest_a = encode_utf8(a.voice_key) + seq![0u8] + encode_utf8(a.text);
    let rest_b = encode_utf8(b.voice_key) + seq![0u8] + encode_utf8(b.text);
    assert(a.message() =~= model_a + seq![0u8] + rest_a);
    assert(b.message() =~= model_b + seq![0u8] + rest_b);
    split_at(0, model_a, rest_a, model_b, rest_b);
    split_at(
        0,
        encode_utf8(a.voice_key),
        encode_utf8(a.text),
        encode_utf8(b.voice_key),
        encode_utf8(b.text),
    );
    model_bytes_injective(a.backbone_repo, a.gguf_file, b.backbone_repo, b.gguf_file);
    encoding_injective(a.voice_key, b.voice_key);
    encoding_injective(a.text, b.text);
}

/// Whether two utterances agree in two of model, voice and text.
pub open spec fn one_change_apart(a: Utterance, b: Utterance) -> bool {
    let same_model = a.backbone_repo == b.backbone_repo && a.gguf_file == b.gguf_file;
    let same_voice = a.voice_key == b.voice_key;
    let same_text = a.text == b.text;
    same_voice && same_text || same_model && same_text || same_model && same_voice
}

/// A change of the model alone, the voice alone or the text alone changes what is
/// hashed, whatever the names hold.
pub proof fn one_change_changes_message(a: Utterance, b: Utterance)
    requires
        one_change_apart(a, b),
        a.message() == b.message(),
    ensures
        a == b,
{
    let model_a = model_bytes(a.backbone_repo, a.gguf_file);
    let model_b = model_bytes(b.backbone_repo, b.gguf_file);
    let voice_a = encode_utf8(a.voice_key);
    let voice_b = encode_utf8(b.voice_key);
    let text_a = encode_utf8(a.text);
    let text_b = encode_utf8(b.text);
    assert(a.message().len() == model_a.len() + voice_a.len() + text_a.len() + 2);
    assert(b.message().len() == model_b.len() + voice_b.len() + text_b.len() + 2);
    let m = model_a.len() as int;
    let v = voice_a.len() as int;
    assert(model_a =~= a.message().take(m));
    assert(model_b =~= b.message().take(m));
    assert(voice_a =~= a.message().subrange(m + 1, m + 1 + v));
    assert(voice_b =~= b.message().subrange(m + 1, m + 1 + v));
    assert(text_a =~= a.message().skip(m + v + 2));
    assert(text_b =~= b.message().skip(m + v + 2));
    model_bytes_injective(a.backbone_repo, a.gguf_file, b.backbone_repo, b.gguf_file);
    encoding_injective(a.voice_key, b.voice_key);
    encoding_injective(a.text, b.text);
}

/// Two utterances share a file exactly where their digests are the same.
pub proof fn wav_path_names_digest(state: TtsStateView, a: Utterance, b: Utterance)
    ensures
        a.path(state) == b.path(state) <==> sha256_digest(a.message()) == sha256_digest(
            b.message(),
        ),
{
    if a.path(state) == b.path(state) {
        same_path_same_digest(state, a, b);
    }
}

/// Two utterances share a file only where their digests are the same.
proof fn same_path_same_digest(state: TtsStateView, a: Utterance, b: Utterance)
    requires
        a.path(state) == b.path(state),
    ensures
        sha256_digest(a.message()) == sha256_digest(b.message()),
{
    let dir = joined(data_dir(state), "cache/neutts-wav"@);
    let da = sha256_digest(a.message());
    let db = sha256_digest(b.message());
    reveal_strlit("/");
    reveal_strlit(".wav");
    name_not_rooted(da);
    name_not_rooted(db);
    let na = wav_file_name(da);
    let nb = wav_file_name(db);
    let k = (joined(dir, na).len() - na.len()) as int;
    assert(joined(dir, na).skip(k) =~= na);
    assert(joined(dir, nb).skip(k) =~= nb);
    assert(na.take(na.len() - 4) =~= hex_text(da));
    assert(nb.take(na.len() - 4) =~= hex_text(db));
    hex_text_injective(da, db);
}

/// Any change of the model alone, the voice alone or the text alone leads to
/// another file, whatever the names hold, as long as the digest tells the two
/// messages apart.
pub proof fn one_change_changes_path(state: TtsStateView, a: Utterance, b: Utterance)
    requires
        one_change_apart(a, b),
        sha256_digest(a.message()) == sha256_digest(b.message()) ==> a.message() == b.message(),
    ensures
        a.path(state) == b.path(state) <==> a == b,
{
    wav_path_names_digest(state, a, b);
    if a.path(state) == b.path(state) {
        one_change_changes_message(a, b);
    }
}

/// The cache serves an utterance with its own audio only: as long as the digest
/// tells the two messages apart, and model and voice names hold no zero
/// character, any change of repository, GGUF file, voice or text, also of several
/// at once, leads to another file.
pub proof fn wav_path_identifies_utterance(state: TtsStateView, a: Utterance, b: Utterance)
    requires
        a.plainly_named(),
        b.plainly_named(),
        sha256_digest(a.message()) == sha256_digest(b.message()) ==> a.message() == b.message(),
    ensures
        a.path(state) == b.path(state) <==> a == b,
{
    if a.path(state) == b.path(state) {
        wav_path_names_digest(state, a, b);
        cache_message_injective(a, b);
    }
}

/// A file name for a digest does not start at the root.
proof fn name_not_rooted(digest: Seq<u8>)
    ensures
        wav_file_name(digest).len() > 0,
        wav_file_name(digest)[0] != '/',
    decreases digest.len(),
{
    reveal_strlit(".wav");
    if digest.len() > 0 {
        name_not_rooted(digest.drop_last());
        let d = digest.last() as int;
        assert(hex_text(digest).len() >= 2);
        if digest.len() == 1 {
            assert(hex_text(digest.drop_last()).len() == 0);
            assert(hex_text(digest)[0] == digit_char(d / 16));
        } else {
            assert(hex_text(digest.drop_last()).len() > 0);
            assert(hex_text(digest)[0] == hex_text(digest.drop_last())[0]);
            assert(wav_file_name(digest.drop_last())[0] == hex_text(digest.drop_last())[0]);
        }
    }
}

/// Decoded audio: samples of 16 bits at a rate in hertz.
#[derive(Debug, PartialEq, Eq)]
pub struct WavAudio {
    pub sample_rate: u32,
    pub samples: Vec<i16>,
}

/// `hound::WavIntoSamples`, which hands out the samples of a WAV file.
#[verifier::external_type_specification]
#[verifier::external_body]
#[verifier::reject_recursive_types(R)]
#[verifier::reject_recursive_types(S)]
pub struct ExWavIntoSamples<R, S>(hound::WavIntoSamples<R, S>);

/// What the bytes of a WAV file hold: the sample rate and, for each sample of
/// the data chunk, its value or nothing where it cannot be read as 16 bits. For
/// bytes that are no WAV file, why they are none.
pub uninterp spec fn wav_contents(bytes: Seq<u8>) -> Result<
    (u32, Seq<Option<i16>>),
    Seq<char>,
>;

/// The samples that are still to be handed out, each with its value or nothing
/// where it cannot be read.
pub uninterp spec fn samples_left(samples: hound::WavIntoSamples<&[u8], i16>) -> Seq<Option<i16>>;

/// Calls `hound::WavReader::new` on the bytes, and on success `spec` and
/// `into_samples::<i16>`. Claims that the rate, the samples to be handed out and
/// the text of the error depend on the bytes alone.
#[verifier::external_body]
fn open_wav(bytes: &[u8]) -> (opened: Result<(u32, hound::WavIntoSamples<&[u8], i16>), String>)
    ensures
        (match opened {
            Ok(w) => Ok((w.0, samples_left(w.1))),
            Err(e) => Err(e@),
        }) == wav_contents(bytes@),
{
    match hound::WavReader::new(bytes) {
        Ok(reader) => Ok((reader.spec().sample_rate, reader.into_samples::<i16>())),
        Err(e) => Err(e.to_string()),
    }
}

/// Calls `next` of `hound::WavIntoSamples`. Claims that the samples come one by
/// one, in order, until none is left. Of an error it only says that there is no
/// value.
#[verifier::external_body]
fn next_sample(samples: &mut hound::WavIntoSamples<&[u8], i16>) -> (sample: Option<Option<i16>>)
    ensures
        sample == (if samples_left(*old(samples)).len() == 0 {
            None
        } else {
            Some(samples_left(*old(samples)).first())
        }),
        samples_left(*final(samples)) == (if samples_left(*old(samples)).len() == 0 {
            samples_left(*old(samples))
        } else {
            samples_left(*old(samples)).drop_first()
        }),
{
    samples.next().map(|s| s.ok())
}

/// The values that are there, in order.
pub open spec fn present(samples: Seq<Option<i16>>) -> Seq<i16>
    decreases samples.len(),
{
    if samples.len() == 0 {
        Seq::empty()
    } else {
        match samples.first() {
            Some(s) => seq![s] + present(samples.drop_first()),
            None => present(samples.drop_first()),
        }
    }
}

/// Keeps a sample, if it has a value.
pub fn keep_sample(kept: &mut Vec<i16>, sample: Option<i16>)
    ensures
        final(kept)@ == (match sample {
            Some(s) => old(kept)@.push(s),
            None => old(kept)@,
        }),
{
    if let Some(s) = sample {
        kept.push(s);
    }
}

/// What readable samples play: nothing where there are none.
pub open spec fn audible(sample_rate: u32, samples: Seq<i16>) -> Option<(u32, Seq<i16>)> {
    if samples.len() == 0 {
        None
    } else {
        Some((sample_rate, samples))
    }
}

/// What a file with the given contents plays: its readable samples, or nothing
/// where there are none.
pub open spec fn playable(contents: Result<(u32, Seq<Option<i16>>), Seq<char>>) -> Result<
    Option<(u32, Seq<i16>)>,
    Seq<char>,
> {
    match contents {
        Ok((rate, samples)) => Ok(audible(rate, present(samples))),
        Err(e) => Err(e),
    }
}

/// Rate and samples of audio that may be missing.
pub open spec fn audio_view(audio: Option<WavAudio>) -> Option<(u32, Seq<i16>)> {
    match audio {
        Some(a) => Some((a.sample_rate, a.samples@)),
        None => None,
    }
}

/// Decides what readable samples play. Without any there is nothing to play.
pub fn playback(sample_rate: u32, samples: Vec<i16>) -> (audio: Option<WavAudio>)
    ensures
        audio_view(audio) == audible(sample_rate, samples@),
{
    if samples.len() == 0 {
        None
    } else {
        Some(WavAudio { sample_rate, samples })
    }
}

/// Decides what the bytes of a cached WAV file play. Samples that cannot be read
/// are left out; a file without any other plays nothing. Bytes that are no WAV
/// file are an error.
pub fn play_wav_file(bytes: &[u8]) -> (audio: Result<Option<WavAudio>, String>)
    ensures
        (match audio {
            Ok(a) => Ok(audio_view(a)),
            Err(e) => Err(e@),
        }) == playable(wav_contents(bytes@)),
{
    match open_wav(bytes) {
        Ok((sample_rate, opened)) => {
            let mut samples = opened;
            let mut kept: Vec<i16> = Vec::new();
            let ghost all = samples_left(samples);
            assert(present(all) =~= kept@ + present(samples_left(samples)));
            loop
                invariant
                    present(all) == kept@ + present(samples_left(samples)),
                ensures
                    kept@ == present(all),
                decreases samples_left(samples).len(),
            {
                match next_sample(&mut samples) {
                    Some(sample) => {
                        keep_sample(&mut kept, sample);
                        assert(present(all) =~= kept@ + present(samples_left(samples)));
                    },
                    None => {
                        assert(kept@ + present(samples_left(samples)) =~= kept@);
                        break;
                    },
                }
            }
            Ok(playback(sample_rate, kept))
        },
        Err(e) => Err(e),
    }
}

/// What is hashed, part by part: repository, a byte that no text holds and the
/// file where one was asked for, a zero byte, the voice, a zero byte, the text,
/// each text in full and in UTF-8.
pub proof fn message_holds_its_parts(u: Utterance)
    ensures
        u.gguf_file is None ==> u.message() == encode_utf8(u.backbone_repo) + seq![0u8]
            + encode_utf8(u.voice_key) + seq![0u8] + encode_utf8(u.text),
        u.gguf_file is Some ==> u.message() == encode_utf8(u.backbone_repo) + seq![0xFFu8]
            + encode_utf8(u.gguf_file->0) + seq![0u8] + encode_utf8(u.voice_key) + seq![0u8]
            + encode_utf8(u.text),
{
}

/// Audio is kept in the audio cache of the data directory, in a file called by
/// the hexadecimal digest of what is hashed and `.wav`.
pub proof fn audio_is_in_its_cache(state: TtsStateView, u: Utterance)
    ensures
        u.path(state) == joined(
            joined(data_dir(state), "cache/neutts-wav"@),
            hex_text(sha256_digest(u.message())) + ".wav"@,
        ),
{
}

/// What plays of samples that are all readable is all of them, in order.
pub proof fn readable_samples_all_play(samples: Seq<i16>)
    ensures
        present(samples.map_values(|s: i16| Some(s))) == samples,
    decreases samples.len(),
{
    let all = samples.map_values(|s: i16| Some(s));
    if samples.len() > 0 {
        let rest = samples.drop_first();
        readable_samples_all_play(rest);
        assert(all.drop_first() =~= rest.map_values(|s: i16| Some(s)));
        assert(samples =~= seq![samples.first()] + rest);
    } else {
        assert(present(all) =~= samples);
    }
}

/// Samples count for themselves: what is kept of two stretches is what is kept of
/// the first, then what is kept of the second.
pub proof fn samples_are_kept_apart(a: Seq<Option<i16>>, b: Seq<Option<i16>>)
    ensures
        present(a + b) == present(a) + present(b),
    decreases a.len(),
{
    if a.len() > 0 {
        samples_are_kept_apart(a.drop_first(), b);
        assert((a + b).drop_first() =~= a.drop_first() + b);
        assert(present(a + b) =~= present(a) + present(b));
    } else {
        assert(a + b =~= b);
        assert(present(a) + present(b) =~= present(b));
    }
}

/// The samples that are kept are those with a value, in their order, and no
/// others.
pub proof fn kept_samples_are_the_readable(samples: Seq<Option<i16>>)
    ensures
        present(samples) == samples.filter(|s: Option<i16>| s is Some).map_values(
            |s: Option<i16>| s->0,
        ),
    decreases samples.len(),
{
    reveal(Seq::filter);
    let has_value = |s: Option<i16>| s is Some;
    let value = |s: Option<i16>| s->0;
    if samples.len() > 0 {
        let front = samples.drop_last();
        let last = samples.last();
        kept_samples_are_the_readable(front);
        assert(samples =~= front + seq![last]);
        samples_are_kept_apart(front, seq![last]);
        assert(seq![last].drop_first() =~= Seq::<Option<i16>>::empty());
        reveal_with_fuel(present, 2);
        assert(present(samples) =~= samples.filter(has_value).map_values(value));
    } else {
        assert(present(samples) =~= samples.filter(has_value).map_values(value));
    }
}

/// A WAV file plays at its own rate every sample that can be read, in order, and
/// is silent only where there is none. With all samples readable it plays as many
/// samples as it holds, each in its place. What is no WAV file is an error, told
/// as it came.
pub proof fn file_plays_in_full(
    sample_rate: u32,
    contents: Seq<Option<i16>>,
    samples: Seq<i16>,
    error: Seq<char>,
)
    ensures
        match playable(Ok((sample_rate, contents))) {
            Ok(Some((rate, played))) => {
                &&& rate == sample_rate
                &&& played.len() > 0
                &&& played.len() == contents.filter(|s: Option<i16>| s is Some).len()
                &&& played == contents.filter(|s: Option<i16>| s is Some).map_values(
                    |s: Option<i16>| s->0,
                )
            },
            Ok(None) => forall|i: int| 0 <= i < contents.len() ==> #[trigger] contents[i] is None,
            Err(_) => false,
        },
        samples.len() > 0 ==> playable(Ok((sample_rate, samples.map_values(|s: i16| Some(s)))))
            == Ok::<Option<(u32, Seq<i16>)>, Seq<char>>(Some((sample_rate, samples))),
        samples.len() > 0 ==> audible(sample_rate, samples) == Some((sample_rate, samples)),
        samples.len() == 0 ==> audible(sample_rate, samples) is None,
        playable(Err(error)) == Err::<Option<(u32, Seq<i16>)>, Seq<char>>(error),
{
    kept_samples_are_the_readable(contents);
    readable_samples_all_play(samples);
    let has_value = |s: Option<i16>| s is Some;
    assert forall|i: int| 0 <= i < contents.len() && contents[i] is Some implies present(
        contents,
    ).len() > 0 by {
        contents.lemma_filter_contains(has_value, i);
    }
}

/// Audio is seen with its rate and all its samples.
pub proof fn audio_is_seen_in_full(audio: WavAudio)
    ensures
        audio_view(Some(audio)) == Some((audio.sample_rate, audio.samples@)),
        audio_view(None) is None,
{
}

} // verus!
