//! Loading a NeuTTS model: which files are needed, in which order they are
//! fetched and converted, and what is reported on the way.
//!
//! A load alternates decisions and outside work. [`skill_neutts_load`] opens it;
//! [`BackboneLoad::step`] takes the outcome of the last action and names the
//! next one. There are three reported steps: the backbone, the decoder, and
//! building the model from both. The downloaded checkpoint of the decoder is
//! converted once; the converted file is kept in the data directory and reused.

use std::path::PathBuf;

use vstd::prelude::*;
use vstd::string::*;

use crate::paths::{data_dir, join, joined, neutts_model_dir};
use crate::progress::{LoadProgress, LoadProgressView};
use crate::state::{clone_opt, opt_text, texts, TtsState};
use crate::text::{ends_with, has_suffix};

verus! {

/// `std::path::PathBuf`, the path of a file outside the data directory. It is
/// carried from one action to the next and never looked into.
#[verifier::external_type_specification]
#[verifier::external_body]
pub struct ExPathBuf(std::path::PathBuf);

/// The language and the size in megabytes of a backbone repository that the
/// `neutts` crate knows.
pub uninterp spec fn known_model(repo: Seq<char>) -> Option<(Seq<char>, u32)>;

/// Calls `neutts::download::find_model`. Claims that what it finds depends on
/// the repository's name alone; only the language and the size are handed on.
#[verifier::external_body]
fn find_model(repo: &str) -> (model: Option<(String, u32)>)
    ensures
        model_view(model) == known_model(repo@),
{
    neutts::download::find_model(repo).map(|m| (m.language.to_string(), m.size_mb))
}

/// Reads `neutts::download::CODEC_DECODER_REPO`, the repository of the decoder's
/// checkpoint. Claims its value.
#[verifier::external_body]
fn codec_decoder_repo() -> (repo: &'static str)
    ensures
        repo@ == "neuphonic/neucodec"@,
{
    neutts::download::CODEC_DECODER_REPO
}

/// Reads `neutts::download::CODEC_SOURCE_FILE`, the name of the decoder's
/// checkpoint in its repository. Claims its value.
#[verifier::external_body]
fn codec_source_file() -> (file: &'static str)
    ensures
        file@ == "pytorch_model.bin"@,
{
    neutts::download::CODEC_SOURCE_FILE
}

/// Reads `neutts::download::CODEC_DECODER_FILE`, the name of the converted
/// decoder. Claims its value.
#[verifier::external_body]
fn codec_decoder_file() -> (file: &'static str)
    ensures
        file@ == "neucodec_decoder.safetensors"@,
{
    neutts::download::CODEC_DECODER_FILE
}

/// Reads `neutts::download::CODEC_DECODER_SIZE_MB`, the size of the decoder's
/// checkpoint. Claims its value.
#[verifier::external_body]
fn codec_decoder_size_mb() -> (size: u32)
    ensures
        size == 1100,
{
    neutts::download::CODEC_DECODER_SIZE_MB
}

/// Language and size of a model that may be unknown.
pub open spec fn model_view(model: Option<(String, u32)>) -> Option<(Seq<char>, u32)> {
    match model {
        Some(m) => Some((m.0@, m.1)),
        None => None,
    }
}

/// Where a load stands: what it waits for, and the files it has.
#[derive(Debug, PartialEq, Eq)]
pub enum LoadStage {
    Connecting,
    Listing,
    FetchingBackbone { file: String },
    LookingForDecoder { backbone: PathBuf },
    FetchingDecoder { backbone: PathBuf },
    Converting { backbone: PathBuf },
    Building,
    Finished,
}

/// A [`LoadStage`] as mathematical text.
#[verifier::ext_equal]
pub enum LoadStageView {
    Connecting,
    Listing,
    FetchingBackbone { file: Seq<char> },
    LookingForDecoder { backbone: PathBuf },
    FetchingDecoder { backbone: PathBuf },
    Converting { backbone: PathBuf },
    Building,
    Finished,
}

impl View for LoadStage {
    type V = LoadStageView;

    open spec fn view(&self) -> LoadStageView {
        match *self {
            LoadStage::Connecting => LoadStageView::Connecting,
            LoadStage::Listing => LoadStageView::Listing,
            LoadStage::FetchingBackbone { file } => LoadStageView::FetchingBackbone { file: file@ },
            LoadStage::LookingForDecoder { backbone } => LoadStageView::LookingForDecoder {
                backbone,
            },
            LoadStage::FetchingDecoder { backbone } => LoadStageView::FetchingDecoder { backbone },
            LoadStage::Converting { backbone } => LoadStageView::Converting { backbone },
            LoadStage::Building => LoadStageView::Building,
            LoadStage::Finished => LoadStageView::Finished,
        }
    }
}

/// The load of one model.
#[derive(Debug, PartialEq, Eq)]
pub struct BackboneLoad {
    pub repo: String,
    pub gguf_file: Option<String>,
    /// Where the converted decoder is, or goes.
    pub decoder: String,
    pub size_mb: Option<u32>,
    pub language: String,
    pub stage: LoadStage,
}

/// A [`BackboneLoad`] as mathematical text.
#[verifier::ext_equal]
pub struct BackboneLoadView {
    pub repo: Seq<char>,
    pub gguf_file: Option<Seq<char>>,
    pub decoder: Seq<char>,
    pub size_mb: Option<u32>,
    pub language: Seq<char>,
    pub stage: LoadStageView,
}

impl BackboneLoadView {
    /// The same load at another stage.
    pub open spec fn at(self, stage: LoadStageView) -> BackboneLoadView {
        BackboneLoadView { stage, ..self }
    }
}

impl View for BackboneLoad {
    type V = BackboneLoadView;

    open spec fn view(&self) -> BackboneLoadView {
        BackboneLoadView {
            repo: self.repo@,
            gguf_file: opt_text(self.gguf_file),
            decoder: self.decoder@,
            size_mb: self.size_mb,
            language: self.language@,
            stage: self.stage@,
        }
    }
}

/// The outcome of an action.
#[derive(Debug, PartialEq, Eq)]
pub enum LoadEvent {
    Connected,
    ConnectFailed { error: String },
    Listed { files: Vec<String> },
    ListFailed { error: String },
    Downloaded { path: PathBuf },
    DownloadFailed { error: String },
    DecoderFound,
    DecoderMissing,
    Converted,
    ConvertFailed { error: String },
    Built,
    BuildFailed { error: String },
}

/// A [`LoadEvent`] as mathematical text.
#[verifier::ext_equal]
pub enum LoadEventView {
    Connected,
    ConnectFailed { error: Seq<char> },
    Listed { files: Seq<Seq<char>> },
    ListFailed { error: Seq<char> },
    Downloaded { path: PathBuf },
    DownloadFailed { error: Seq<char> },
    DecoderFound,
    DecoderMissing,
    Converted,
    ConvertFailed { error: Seq<char> },
    Built,
    BuildFailed { error: Seq<char> },
}

impl View for LoadEvent {
    type V = LoadEventView;

    open spec fn view(&self) -> LoadEventView {
        match *self {
            LoadEvent::Connected => LoadEventView::Connected,
            LoadEvent::ConnectFailed { error } => LoadEventView::ConnectFailed { error: error@ },
            LoadEvent::Listed { files } => LoadEventView::Listed { files: texts(files@) },
            LoadEvent::ListFailed { error } => LoadEventView::ListFailed { error: error@ },
            LoadEvent::Downloaded { path } => LoadEventView::Downloaded { path },
            LoadEvent::DownloadFailed { error } => LoadEventView::DownloadFailed { error: error@ },
            LoadEvent::DecoderFound => LoadEventView::DecoderFound,
            LoadEvent::DecoderMissing => LoadEventView::DecoderMissing,
            LoadEvent::Converted => LoadEventView::Converted,
            LoadEvent::ConvertFailed { error } => LoadEventView::ConvertFailed { error: error@ },
            LoadEvent::Built => LoadEventView::Built,
            LoadEvent::BuildFailed { error } => LoadEventView::BuildFailed { error: error@ },
        }
    }
}

/// The work to do next.
#[derive(Debug, PartialEq, Eq)]
pub enum LoadAction {
    /// Set up the client of the model hub.
    Connect,
    /// List the files of a repository.
    List { repo: String },
    /// Fetch a file of a repository, reporting its bytes under `step`.
    Download { repo: String, file: String, step: u32 },
    /// Test whether the converted decoder is there.
    LookForDecoder { path: String },
    /// Convert a checkpoint with `heads` attention heads into `dest`.
    Convert { checkpoint: PathBuf, dest: String, heads: u32, repo: String },
    /// Build the model.
    Build { backbone: PathBuf, decoder: String, language: String },
    /// Nothing: the load succeeded.
    Succeed,
    /// Nothing: the load failed.
    Fail { error: String },
}

/// A [`LoadAction`] as mathematical text.
#[verifier::ext_equal]
pub enum LoadActionView {
    Connect,
    List { repo: Seq<char> },
    Download { repo: Seq<char>, file: Seq<char>, step: u32 },
    LookForDecoder { path: Seq<char> },
    Convert { checkpoint: PathBuf, dest: Seq<char>, heads: u32, repo: Seq<char> },
    Build { backbone: PathBuf, decoder: Seq<char>, language: Seq<char> },
    Succeed,
    Fail { error: Seq<char> },
}

impl View for LoadAction {
    type V = LoadActionView;

    open spec fn view(&self) -> LoadActionView {
        match *self {
            LoadAction::Connect => LoadActionView::Connect,
            LoadAction::List { repo } => LoadActionView::List { repo: repo@ },
            LoadAction::Download { repo, file, step } => LoadActionView::Download {
                repo: repo@,
                file: file@,
                step,
            },
            LoadAction::LookForDecoder { path } => LoadActionView::LookForDecoder { path: path@ },
            LoadAction::Convert { checkpoint, dest, heads, repo } => LoadActionView::Convert {
                checkpoint,
                dest: dest@,
                heads,
                repo: repo@,
            },
            LoadAction::Build { backbone, decoder, language } => LoadActionView::Build {
                backbone,
                decoder: decoder@,
                language: language@,
            },
            LoadAction::Succeed => LoadActionView::Succeed,
            LoadAction::Fail { error } => LoadActionView::Fail { error: error@ },
        }
    }
}

/// What a decision yields: what to report at once, then what to do.
#[verifier::ext_equal]
pub struct LoadTurn {
    pub load: BackboneLoadView,
    pub reports: Seq<LoadProgressView>,
    pub action: LoadActionView,
}

/// The reports of a list.
pub open spec fn reports_view(reports: Seq<LoadProgress>) -> Seq<LoadProgressView> {
    reports.map_values(|p: LoadProgress| p@)
}

/// A load of a model of which `model` is known, before anything was done.
pub open spec fn opened_load(
    repo: Seq<char>,
    gguf_file: Option<Seq<char>>,
    decoder: Seq<char>,
    model: Option<(Seq<char>, u32)>,
) -> BackboneLoadView {
    BackboneLoadView {
        repo,
        gguf_file,
        decoder,
        size_mb: match model {
            Some((_, size)) => Some(size),
            None => None,
        },
        language: match model {
            Some((language, _)) => language,
            None => "en-us"@,
        },
        stage: LoadStageView::Connecting,
    }
}

/// The first of `files` that holds a GGUF model.
pub open spec fn first_gguf(files: Seq<Seq<char>>) -> Option<Seq<char>>
    decreases files.len(),
{
    if files.len() == 0 {
        None
    } else if has_suffix(files.first(), ".gguf"@) {
        Some(files.first())
    } else {
        first_gguf(files.drop_first())
    }
}

/// Whether an event can be the outcome of what a load waits for.
pub open spec fn load_expects(stage: LoadStageView, event: LoadEventView) -> bool {
    match stage {
        LoadStageView::Connecting => event is Connected || event is ConnectFailed,
        LoadStageView::Listing => event is Listed || event is ListFailed,
        LoadStageView::FetchingBackbone { .. } => event is Downloaded || event is DownloadFailed,
        LoadStageView::LookingForDecoder { .. } => event is DecoderFound || event is DecoderMissing,
        LoadStageView::FetchingDecoder { .. } => event is Downloaded || event is DownloadFailed,
        LoadStageView::Converting { .. } => event is Converted || event is ConvertFailed,
        LoadStageView::Building => event is Built || event is BuildFailed,
        LoadStageView::Finished => false,
    }
}

/// A load that ended in an error.
pub open spec fn failed(load: BackboneLoadView, error: Seq<char>) -> LoadTurn {
    LoadTurn {
        load: load.at(LoadStageView::Finished),
        reports: Seq::empty(),
        action: LoadActionView::Fail { error },
    }
}

/// A load that fetches the backbone.
pub open spec fn fetch_backbone(
    load: BackboneLoadView,
    file: Seq<char>,
    reports: Seq<LoadProgressView>,
) -> LoadTurn {
    LoadTurn {
        load: load.at(LoadStageView::FetchingBackbone { file }),
        reports,
        action: LoadActionView::Download { repo: load.repo, file, step: 1 },
    }
}

/// A load that builds the model, both files being there.
pub open spec fn build(
    load: BackboneLoadView,
    backbone: PathBuf,
    reports: Seq<LoadProgressView>,
) -> LoadTurn {
    LoadTurn {
        load: load.at(LoadStageView::Building),
        reports: reports.push(
            LoadProgressView::Loading {
                step: 3,
                total: 3,
                component: "backbone + NeuCodec decoder"@,
            },
        ),
        action: LoadActionView::Build {
            backbone,
            decoder: load.decoder,
            language: load.language,
        },
    }
}

/// The message for a file that could not be fetched.
pub open spec fn download_error(file: Seq<char>, repo: Seq<char>, error: Seq<char>) -> Seq<char> {
    "Failed to download '"@ + file + "' from '"@ + repo + "': "@ + error
}

/// What a load does upon an event that it waits for.
pub open spec fn load_turn(load: BackboneLoadView, event: LoadEventView) -> LoadTurn {
    match (load.stage, event) {
        (LoadStageView::Connecting, LoadEventView::Connected) => {
            let reports = seq![
                LoadProgressView::Fetching {
                    step: 1,
                    total: 3,
                    file: match load.gguf_file {
                        Some(file) => file,
                        None => "*.gguf"@,
                    },
                    repo: load.repo,
                    size_mb: load.size_mb,
                },
            ];
            match load.gguf_file {
                Some(file) => fetch_backbone(load, file, reports),
                None => LoadTurn {
                    load: load.at(LoadStageView::Listing),
                    reports,
                    action: LoadActionView::List { repo: load.repo },
                },
            }
        },
        (_, LoadEventView::ConnectFailed { error }) => failed(
            load,
            "Failed to init HF client: "@ + error,
        ),
        (_, LoadEventView::Listed { files }) => match first_gguf(files) {
            Some(file) => fetch_backbone(load, file, Seq::empty()),
            None => failed(load, "No .gguf file in '"@ + load.repo + "'"@),
        },
        (_, LoadEventView::ListFailed { error }) => failed(
            load,
            "Failed to fetch repo info for '"@ + load.repo + "': "@ + error,
        ),
        (LoadStageView::FetchingBackbone { .. }, LoadEventView::Downloaded { path }) => LoadTurn {
            load: BackboneLoadView {
                stage: LoadStageView::LookingForDecoder { backbone: path },
                ..load
            },
            reports: Seq::empty(),
            action: LoadActionView::LookForDecoder { path: load.decoder },
        },
        (LoadStageView::FetchingBackbone { file }, LoadEventView::DownloadFailed { error }) => failed(
            load,
            download_error(file, load.repo, error),
        ),
        (LoadStageView::LookingForDecoder { backbone }, LoadEventView::DecoderFound) => build(
            load,
            backbone,
            seq![
                LoadProgressView::Fetching {
                    step: 2,
                    total: 3,
                    file: "neucodec_decoder.safetensors"@,
                    repo: "(skill_dir)"@,
                    size_mb: None,
                },
            ],
        ),
        (LoadStageView::LookingForDecoder { backbone }, LoadEventView::DecoderMissing) => LoadTurn {
            load: load.at(LoadStageView::FetchingDecoder { backbone }),
            reports: seq![
                LoadProgressView::Fetching {
                    step: 2,
                    total: 3,
                    file: "pytorch_model.bin"@,
                    repo: "neuphonic/neucodec"@,
                    size_mb: Some(1100),
                },
            ],
            action: LoadActionView::Download {
                repo: "neuphonic/neucodec"@,
                file: "pytorch_model.bin"@,
                step: 2,
            },
        },
        (LoadStageView::FetchingDecoder { backbone }, LoadEventView::Downloaded { path }) => LoadTurn {
            load: load.at(LoadStageView::Converting { backbone }),
            reports: seq![
                LoadProgressView::Loading {
                    step: 2,
                    total: 3,
                    component: "converting "@ + "pytorch_model.bin"@ + " → "@
                        + "neucodec_decoder.safetensors"@,
                },
            ],
            action: LoadActionView::Convert {
                checkpoint: path,
                dest: load.decoder,
                heads: 16,
                repo: "neuphonic/neucodec"@,
            },
        },
        (LoadStageView::FetchingDecoder { .. }, LoadEventView::DownloadFailed { error }) => failed(
            load,
            download_error("pytorch_model.bin"@, "neuphonic/neucodec"@, error),
        ),
        (LoadStageView::Converting { backbone }, LoadEventView::Converted) => build(
            load,
            backbone,
            Seq::empty(),
        ),
        (_, LoadEventView::ConvertFailed { error }) => failed(
            load,
            "Checkpoint conversion failed: "@ + error,
        ),
        (_, LoadEventView::Built) => LoadTurn {
            load: load.at(LoadStageView::Finished),
            reports: Seq::empty(),
            action: LoadActionView::Succeed,
        },
        (_, LoadEventView::BuildFailed { error }) => failed(
            load,
            "Failed to load NeuTTS: "@ + error,
        ),
        (_, _) => arbitrary(),
    }
}

/// Finds the first GGUF file of a listing.
pub fn find_gguf(files: Vec<String>) -> (file: Option<String>)
    ensures
        opt_text(file) == first_gguf(texts(files@)),
{
    let ghost all = texts(files@);
    assert(all.skip(0) =~= all);
    let mut i: usize = 0;
    while i < files.len()
        invariant
            i <= files@.len(),
            all == texts(files@),
            first_gguf(all) == first_gguf(all.skip(i as int)),
        decreases files@.len() - i,
    {
        assert(all.skip(i as int).first() == files@[i as int]@);
        if ends_with(files[i].as_str(), ".gguf") {
            return Some(files[i].clone());
        }
        assert(all.skip(i as int).drop_first() =~= all.skip(i + 1));
        i = i + 1;
    }
    None
}

/// Opens a load of a model of which `model`, its language and its size, is
/// known. The converted decoder is at `decoder`.
pub fn open_load(
    repo: String,
    gguf_file: Option<String>,
    decoder: String,
    model: Option<(String, u32)>,
) -> (opened: (BackboneLoad, LoadAction))
    ensures
        opened.0@ == opened_load(repo@, opt_text(gguf_file), decoder@, model_view(model)),
        opened.1@ == LoadActionView::Connect,
{
    let (language, size_mb) = match model {
        Some((language, size)) => (language, Some(size)),
        None => ("en-us".to_owned(), None),
    };
    (
        BackboneLoad { repo, gguf_file, decoder, size_mb, language, stage: LoadStage::Connecting },
        LoadAction::Connect,
    )
}

/// Opens the load of the model in `backbone_repo`, from `gguf_file` or else the
/// repository's first GGUF file.
pub fn skill_neutts_load(
    state: &TtsState,
    backbone_repo: String,
    gguf_file: Option<String>,
) -> (opened: (BackboneLoad, LoadAction))
    ensures
        opened.0@ == opened_load(
            backbone_repo@,
            opt_text(gguf_file),
            joined(
                joined(data_dir(state@), "models/neutts"@),
                "neucodec_decoder.safetensors"@,
            ),
            known_model(backbone_repo@),
        ),
        opened.1@ == LoadActionView::Connect,
{
    let decoder = join(neutts_model_dir(state).as_str(), codec_decoder_file());
    let model = find_model(backbone_repo.as_str());
    open_load(backbone_repo, gguf_file, decoder, model)
}

/// The exec values of a turn, as the turn.
pub open spec fn turn_view(turn: (BackboneLoad, Vec<LoadProgress>, LoadAction)) -> LoadTurn {
    LoadTurn { load: turn.0@, reports: reports_view(turn.1@), action: turn.2@ }
}

/// Ends a load in an error.
fn fail(load: BackboneLoad, error: String) -> (turn: (BackboneLoad, Vec<LoadProgress>, LoadAction))
    requires
        load.stage is Finished,
    ensures
        turn_view(turn) == failed(load@, error@),
{
    let reports: Vec<LoadProgress> = Vec::new();
    assert(reports_view(reports@) =~= Seq::<LoadProgressView>::empty());
    (load, reports, LoadAction::Fail { error })
}

/// The message for a file that could not be fetched.
fn download_failure(file: &str, repo: &str, error: &str) -> (message: String)
    ensures
        message@ == download_error(file@, repo@, error@),
{
    "Failed to download '".to_owned().concat(file).concat("' from '").concat(repo).concat(
        "': ",
    ).concat(error)
}

impl BackboneLoad {
    /// Fetches the backbone from `file`.
    fn start_backbone(self, file: String, reports: Vec<LoadProgress>) -> (turn: (
        BackboneLoad,
        Vec<LoadProgress>,
        LoadAction,
    ))
        ensures
            turn_view(turn) == fetch_backbone(self@, file@, reports_view(reports@)),
    {
        let mut load = self;
        let action = LoadAction::Download {
            repo: load.repo.clone(),
            file: file.clone(),
            step: 1,
        };
        load.stage = LoadStage::FetchingBackbone { file };
        (load, reports, action)
    }

    /// Builds the model from the backbone and the converted decoder.
    fn start_build(self, backbone: PathBuf, reports: Vec<LoadProgress>) -> (turn: (
        BackboneLoad,
        Vec<LoadProgress>,
        LoadAction,
    ))
        ensures
            turn_view(turn) == build(self@, backbone, reports_view(reports@)),
    {
        let mut load = self;
        let mut all = reports;
        all.push(
            LoadProgress::Loading {
                step: 3,
                total: 3,
                component: "backbone + NeuCodec decoder".to_owned(),
            },
        );
        let action = LoadAction::Build {
            backbone,
            decoder: load.decoder.clone(),
            language: load.language.clone(),
        };
        load.stage = LoadStage::Building;
        assert(reports_view(all@) =~= build(self@, backbone, reports_view(reports@)).reports);
        (load, all, action)
    }

    /// Takes the client of the model hub and turns to the backbone.
    fn connected(self) -> (turn: (BackboneLoad, Vec<LoadProgress>, LoadAction))
        requires
            self@.stage is Connecting,
        ensures
            turn_view(turn) == load_turn(self@, LoadEventView::Connected),
    {
        let mut reports: Vec<LoadProgress> = Vec::new();
        reports.push(
            LoadProgress::Fetching {
                step: 1,
                total: 3,
                file: match &self.gguf_file {
                    Some(file) => file.clone(),
                    None => "*.gguf".to_owned(),
                },
                repo: self.repo.clone(),
                size_mb: self.size_mb,
            },
        );
        let ghost turn = load_turn(self@, LoadEventView::Connected);
        assert(reports_view(reports@) =~= turn.reports);
        match clone_opt(&self.gguf_file) {
            Some(file) => self.start_backbone(file, reports),
            None => {
                let mut load = self;
                let action = LoadAction::List { repo: load.repo.clone() };
                load.stage = LoadStage::Listing;
                (load, reports, action)
            },
        }
    }

    /// Takes the downloaded backbone and looks for the decoder.
    fn backbone_fetched(self, path: PathBuf) -> (turn: (
        BackboneLoad,
        Vec<LoadProgress>,
        LoadAction,
    ))
        requires
            self@.stage is FetchingBackbone,
        ensures
            turn_view(turn) == load_turn(self@, LoadEventView::Downloaded { path }),
    {
        let mut load = self;
        let reports: Vec<LoadProgress> = Vec::new();
        let action = LoadAction::LookForDecoder { path: load.decoder.clone() };
        load.stage = LoadStage::LookingForDecoder { backbone: path };
        assert(reports_view(reports@) =~= Seq::<LoadProgressView>::empty());
        (load, reports, action)
    }

    /// Fetches the decoder's checkpoint.
    fn decoder_missing(self, backbone: PathBuf) -> (turn: (
        BackboneLoad,
        Vec<LoadProgress>,
        LoadAction,
    ))
        ensures
            turn_view(turn) == load_turn(
                self@.at(LoadStageView::LookingForDecoder { backbone }),
                LoadEventView::DecoderMissing,
            ),
    {
        let mut load = self;
        let mut reports: Vec<LoadProgress> = Vec::new();
        reports.push(
            LoadProgress::Fetching {
                step: 2,
                total: 3,
                file: codec_source_file().to_owned(),
                repo: codec_decoder_repo().to_owned(),
                size_mb: Some(codec_decoder_size_mb()),
            },
        );
        let action = LoadAction::Download {
            repo: codec_decoder_repo().to_owned(),
            file: codec_source_file().to_owned(),
            step: 2,
        };
        load.stage = LoadStage::FetchingDecoder { backbone };
        assert(reports_view(reports@) =~= load_turn(
                self@.at(LoadStageView::LookingForDecoder { backbone }),
                LoadEventView::DecoderMissing,
            ).reports);
        (load, reports, action)
    }

    /// Takes the kept decoder and builds the model.
    fn decoder_found(self, backbone: PathBuf) -> (turn: (
        BackboneLoad,
        Vec<LoadProgress>,
        LoadAction,
    ))
        ensures
            turn_view(turn) == load_turn(
                self@.at(LoadStageView::LookingForDecoder { backbone }),
                LoadEventView::DecoderFound,
            ),
    {
        let mut reports: Vec<LoadProgress> = Vec::new();
        reports.push(
            LoadProgress::Fetching {
                step: 2,
                total: 3,
                file: codec_decoder_file().to_owned(),
                repo: "(skill_dir)".to_owned(),
                size_mb: None,
            },
        );
        assert(reports_view(reports@) =~= seq![
            LoadProgressView::Fetching {
                step: 2,
                total: 3,
                file: "neucodec_decoder.safetensors"@,
                repo: "(skill_dir)"@,
                size_mb: None,
            },
        ]);
        self.start_build(backbone, reports)
    }

    /// Takes the decoder's checkpoint and converts it.
    fn checkpoint_fetched(self, backbone: PathBuf, path: PathBuf) -> (turn: (
        BackboneLoad,
        Vec<LoadProgress>,
        LoadAction,
    ))
        ensures
            turn_view(turn) == load_turn(
                self@.at(LoadStageView::FetchingDecoder { backbone }),
                LoadEventView::Downloaded { path },
            ),
    {
        let mut load = self;
        let mut reports: Vec<LoadProgress> = Vec::new();
        reports.push(
            LoadProgress::Loading {
                step: 2,
                total: 3,
                component: "converting ".to_owned().concat(codec_source_file()).concat(
                    " → ",
                ).concat(codec_decoder_file()),
            },
        );
        let action = LoadAction::Convert {
            checkpoint: path,
            dest: load.decoder.clone(),
            heads: 16,
            repo: codec_decoder_repo().to_owned(),
        };
        load.stage = LoadStage::Converting { backbone };
        assert(reports_view(reports@) =~= load_turn(
            self@.at(LoadStageView::FetchingDecoder { backbone }),
            LoadEventView::Downloaded { path },
        ).reports);
        (load, reports, action)
    }

    /// Decides upon the outcome of the last action: what to report, and what to
    /// do next.
    pub fn step(self, event: LoadEvent) -> (turn: (BackboneLoad, Vec<LoadProgress>, LoadAction))
        requires
            load_expects(self@.stage, event@),
        ensures
            turn_view(turn) == load_turn(self@, event@),
    {
        let mut load = self;
        let mut stage = LoadStage::Finished;
        std::mem::swap(&mut load.stage, &mut stage);
        match (stage, event) {
            (LoadStage::Connecting, LoadEvent::Connected) => {
                load.stage = LoadStage::Connecting;
                load.connected()
            },
            (LoadStage::Connecting, LoadEvent::ConnectFailed { error }) => fail(
                load,
                "Failed to init HF client: ".to_owned().concat(error.as_str()),
            ),
            (LoadStage::Listing, LoadEvent::Listed { files }) => match find_gguf(files) {
                Some(file) => {
                    let reports: Vec<LoadProgress> = Vec::new();
                    assert(reports_view(reports@) =~= Seq::<LoadProgressView>::empty());
                    load.start_backbone(file, reports)
                },
                None => {
                    let error = "No .gguf file in '".to_owned().concat(load.repo.as_str()).concat(
                        "'",
                    );
                    fail(load, error)
                },
            },
            (LoadStage::Listing, LoadEvent::ListFailed { error }) => {
                let message = "Failed to fetch repo info for '".to_owned().concat(
                    load.repo.as_str(),
                ).concat("': ").concat(error.as_str());
                fail(load, message)
            },
            (LoadStage::FetchingBackbone { file }, LoadEvent::Downloaded { path }) => {
                load.stage = LoadStage::FetchingBackbone { file };
                load.backbone_fetched(path)
            },
            (LoadStage::FetchingBackbone { file }, LoadEvent::DownloadFailed { error }) => {
                let message = download_failure(
                    file.as_str(),
                    load.repo.as_str(),
                    error.as_str(),
                );
                fail(load, message)
            },
            (LoadStage::LookingForDecoder { backbone }, LoadEvent::DecoderFound) => {
                load.decoder_found(backbone)
            },
            (LoadStage::LookingForDecoder { backbone }, LoadEvent::DecoderMissing) => {
                load.decoder_missing(backbone)
            },
            (LoadStage::FetchingDecoder { backbone }, LoadEvent::Downloaded { path }) => {
                load.checkpoint_fetched(backbone, path)
            },
            (LoadStage::FetchingDecoder { backbone }, LoadEvent::DownloadFailed { error }) => {
                let message = download_failure(
                    codec_source_file(),
                    codec_decoder_repo(),
                    error.as_str(),
                );
                fail(load, message)
            },
            (LoadStage::Converting { backbone }, LoadEvent::Converted) => {
                let reports: Vec<LoadProgress> = Vec::new();
                assert(reports_view(reports@) =~= Seq::<LoadProgressView>::empty());
                load.start_build(backbone, reports)
            },
            (LoadStage::Converting { .. }, LoadEvent::ConvertFailed { error }) => fail(
                load,
                "Checkpoint conversion failed: ".to_owned().concat(error.as_str()),
            ),
            (LoadStage::Building, LoadEvent::Built) => {
                let reports: Vec<LoadProgress> = Vec::new();
                assert(reports_view(reports@) =~= Seq::<LoadProgressView>::empty());
                (load, reports, LoadAction::Succeed)
            },
            (LoadStage::Building, LoadEvent::BuildFailed { error }) => fail(
                load,
                "Failed to load NeuTTS: ".to_owned().concat(error.as_str()),
            ),
            (_, _) => vstd::pervasive::unreached(),
        }
    }
}

/// How a file of the model hub is had.
#[derive(Debug, PartialEq, Eq)]
pub enum DownloadPlan {
    /// It is in the hub's cache: report `report` and take it.
    Cached { path: PathBuf, report: (u64, u64) },
    /// It is fetched, with its bytes counted by a `DownloadMeter`.
    Fetch,
}

/// How a file is had, from where the hub's cache keeps it.
pub open spec fn download_plan(cached: Option<PathBuf>) -> DownloadPlan {
    match cached {
        Some(path) => DownloadPlan::Cached { path, report: (1, 1) },
        None => DownloadPlan::Fetch,
    }
}

/// Decides how a file is had, from where the hub's cache keeps it. A file that
/// is there is reported as one byte of one.
pub fn hf_dl_cb(cached: Option<PathBuf>) -> (plan: DownloadPlan)
    ensures
        plan == download_plan(cached),
{
    match cached {
        Some(path) => DownloadPlan::Cached { path, report: (1, 1) },
        None => DownloadPlan::Fetch,
    }
}

/// The report of bytes that have arrived, of all bytes.
pub open spec fn bytes_report(step: u32, report: (u64, u64)) -> LoadProgressView {
    LoadProgressView::Downloading {
        step,
        total: 3,
        downloaded: report.0,
        total_bytes: report.1,
    }
}

/// Reports bytes that have arrived, of all bytes, under one of the three steps.
pub fn download_report(step: u32, report: (u64, u64)) -> (p: LoadProgress)
    ensures
        p@ == bytes_report(step, report),
{
    LoadProgress::Downloading { step, total: 3, downloaded: report.0, total_bytes: report.1 }
}

/// The step that a report is about, and how many steps it speaks of.
pub open spec fn report_step(p: LoadProgressView) -> (u32, u32) {
    match p {
        LoadProgressView::Fetching { step, total, .. } => (step, total),
        LoadProgressView::Downloading { step, total, .. } => (step, total),
        LoadProgressView::Loading { step, total, .. } => (step, total),
    }
}

/// The reported step that a stage belongs to.
pub open spec fn stage_step(stage: LoadStageView) -> u32 {
    match stage {
        LoadStageView::Connecting => 1,
        LoadStageView::Listing => 1,
        LoadStageView::FetchingBackbone { .. } => 1,
        LoadStageView::LookingForDecoder { .. } => 2,
        LoadStageView::FetchingDecoder { .. } => 2,
        LoadStageView::Converting { .. } => 2,
        LoadStageView::Building => 3,
        LoadStageView::Finished => 3,
    }
}

/// How many decisions a load can still need.
pub open spec fn stages_left(stage: LoadStageView) -> nat {
    match stage {
        LoadStageView::Connecting => 7,
        LoadStageView::Listing => 6,
        LoadStageView::FetchingBackbone { .. } => 5,
        LoadStageView::LookingForDecoder { .. } => 4,
        LoadStageView::FetchingDecoder { .. } => 3,
        LoadStageView::Converting { .. } => 2,
        LoadStageView::Building => 1,
        LoadStageView::Finished => 0,
    }
}

/// Progress runs through the steps one to three, of three, and never back. The
/// bytes of a download are reported under the step that the load is at.
pub proof fn reports_never_go_back(load: BackboneLoadView, event: LoadEventView)
    requires
        load_expects(load.stage, event),
    ensures
        ({
            let turn = load_turn(load, event);
            &&& stage_step(load.stage) <= stage_step(turn.load.stage)
            &&& forall|i: int|
                0 <= i < turn.reports.len() ==> {
                    let (step, total) = report_step(#[trigger] turn.reports[i]);
                    &&& total == 3
                    &&& stage_step(load.stage) <= step <= stage_step(turn.load.stage)
                }
            &&& forall|i: int, j: int|
                0 <= i <= j < turn.reports.len() ==> report_step(#[trigger] turn.reports[i]).0
                    <= report_step(#[trigger] turn.reports[j]).0
            &&& turn.action is Download ==> turn.action->step == stage_step(turn.load.stage)
        }),
{
}

/// Every decision brings a load nearer to its end, and a load has ended exactly
/// when it succeeded or failed.
pub proof fn load_ends(load: BackboneLoadView, event: LoadEventView)
    requires
        load_expects(load.stage, event),
    ensures
        ({
            let turn = load_turn(load, event);
            &&& stages_left(turn.load.stage) < stages_left(load.stage)
            &&& turn.load.stage is Finished <==> (turn.action is Succeed || turn.action is Fail)
        }),
{
}

/// A load succeeds only where its model was built; a model is built only where
/// the converted decoder was found or has just been converted, into the place
/// that it is then taken from. What was asked for does not change on the way.
pub proof fn built_from_kept_decoder(load: BackboneLoadView, event: LoadEventView)
    requires
        load_expects(load.stage, event),
    ensures
        ({
            let turn = load_turn(load, event);
            &&& turn.load == load.at(turn.load.stage)
            &&& turn.action is Succeed <==> event is Built
            &&& turn.action is Build <==> event is DecoderFound || event is Converted
            &&& turn.action is Build ==> turn.action->decoder == load.decoder
                && turn.action->language == load.language
            &&& turn.action is LookForDecoder ==> turn.action->path == load.decoder
            &&& turn.action is Convert ==> turn.action->dest == load.decoder
        }),
{
}

/// The file that is picked from a listing is the first that ends in `.gguf`, and
/// one is picked wherever there is one, however long the listing is.
pub proof fn first_gguf_is_the_first(files: Seq<Seq<char>>)
    ensures
        match first_gguf(files) {
            Some(file) => exists|i: int|
                {
                    &&& 0 <= i < files.len()
                    &&& #[trigger] files[i] == file
                    &&& has_suffix(files[i], ".gguf"@)
                    &&& forall|j: int|
                        0 <= j < i ==> !has_suffix(#[trigger] files[j], ".gguf"@)
                },
            None => forall|j: int|
                0 <= j < files.len() ==> !has_suffix(#[trigger] files[j], ".gguf"@),
        },
    decreases files.len(),
{
    if files.len() > 0 {
        if has_suffix(files[0], ".gguf"@) {
            assert(files[0] == files.first());
        } else {
            let rest = files.drop_first();
            first_gguf_is_the_first(rest);
            match first_gguf(rest) {
                Some(file) => {
                    let i = choose|i: int|
                        {
                            &&& 0 <= i < rest.len()
                            &&& #[trigger] rest[i] == file
                            &&& has_suffix(rest[i], ".gguf"@)
                            &&& forall|j: int|
                                0 <= j < i ==> !has_suffix(#[trigger] rest[j], ".gguf"@)
                        };
                    assert(files[i + 1] == file);
                    assert forall|j: int| 0 <= j < i + 1 implies !has_suffix(
                        #[trigger] files[j],
                        ".gguf"@,
                    ) by {
                        if j > 0 {
                            assert(files[j] == rest[j - 1]);
                        }
                    }
                },
                None => {
                    assert forall|j: int| 0 <= j < files.len() implies !has_suffix(
                        #[trigger] files[j],
                        ".gguf"@,
                    ) by {
                        if j > 0 {
                            assert(files[j] == rest[j - 1]);
                        }
                    }
                },
            }
        }
    }
}

/// A load of a repository without a named file goes on to fetch the first GGUF
/// file that is listed, and fails only where none is, naming the repository.
pub proof fn listed_gguf_is_fetched(load: BackboneLoadView, files: Seq<Seq<char>>, i: int)
    requires
        load.stage is Listing,
    ensures
        ({
            let turn = load_turn(load, LoadEventView::Listed { files });
            &&& 0 <= i < files.len() && has_suffix(files[i], ".gguf"@) && (forall|j: int|
                0 <= j < i ==> !has_suffix(#[trigger] files[j], ".gguf"@)) ==> turn.action == (
            LoadActionView::Download { repo: load.repo, file: files[i], step: 1 })
            &&& (forall|j: int|
                0 <= j < files.len() ==> !has_suffix(#[trigger] files[j], ".gguf"@))
                <==> turn.action == (LoadActionView::Fail {
                error: "No .gguf file in '"@ + load.repo + "'"@,
            })
            &&& turn.reports.len() == 0
        }),
{
    first_gguf_is_the_first(files);
    if 0 <= i < files.len() && has_suffix(files[i], ".gguf"@) && (forall|j: int|
        0 <= j < i ==> !has_suffix(#[trigger] files[j], ".gguf"@)) {
        let k = choose|k: int|
            {
                &&& 0 <= k < files.len()
                &&& #[trigger] files[k] == first_gguf(files)->0
                &&& has_suffix(files[k], ".gguf"@)
                &&& forall|j: int| 0 <= j < k ==> !has_suffix(#[trigger] files[j], ".gguf"@)
            };
        assert(!(k < i));
        assert(!(i < k));
    }
}

/// A load is opened for what was asked. A known model brings its language and its
/// size; any other is taken to speak English, with its size unknown.
pub proof fn load_is_opened_as_asked(
    repo: Seq<char>,
    gguf_file: Option<Seq<char>>,
    decoder: Seq<char>,
    language: Seq<char>,
    size: u32,
)
    ensures
        ({
            let known = opened_load(repo, gguf_file, decoder, Some((language, size)));
            let unknown = opened_load(repo, gguf_file, decoder, None);
            &&& known.repo == repo && known.gguf_file == gguf_file && known.decoder == decoder
            &&& known.language == language && known.size_mb == Some(size)
            &&& known.stage is Connecting
            &&& unknown == (BackboneLoadView { language: "en-us"@, size_mb: None, ..known })
        }),
{
}

/// A load that can reach the hub first reports the backbone, with its size where
/// that is known, and then fetches the named file, or lists the repository where
/// none is named.
pub proof fn load_turns_to_backbone(load: BackboneLoadView, file: Seq<char>)
    requires
        load.stage is Connecting,
    ensures
        ({
            let named = load_turn(
                BackboneLoadView { gguf_file: Some(file), ..load },
                LoadEventView::Connected,
            );
            let any = load_turn(
                BackboneLoadView { gguf_file: None, ..load },
                LoadEventView::Connected,
            );
            let report = LoadProgressView::Fetching {
                step: 1,
                total: 3,
                file,
                repo: load.repo,
                size_mb: load.size_mb,
            };
            let any_report = LoadProgressView::Fetching {
                step: 1,
                total: 3,
                file: "*.gguf"@,
                repo: load.repo,
                size_mb: load.size_mb,
            };
            &&& named.reports.len() == 1 && named.reports[0] == report
            &&& named.action == (LoadActionView::Download { repo: load.repo, file, step: 1 })
            &&& any.reports.len() == 1 && any.reports[0] == any_report
            &&& any.action == (LoadActionView::List { repo: load.repo })
        }),
{
}

/// From the fetched backbone on: a decoder that is kept is used; a missing one is
/// fetched as a checkpoint and converted into its place. Either way the model is
/// built from the very backbone that was fetched and the decoder in its place,
/// for the language of the load, and the load succeeds once it is built.
pub proof fn load_builds_what_it_fetched(
    load: BackboneLoadView,
    backbone: PathBuf,
    checkpoint: PathBuf,
)
    requires
        load.stage is FetchingBackbone,
    ensures
        ({
            let fetched = load_turn(load, LoadEventView::Downloaded { path: backbone });
            let kept = load_turn(fetched.load, LoadEventView::DecoderFound);
            let missing = load_turn(fetched.load, LoadEventView::DecoderMissing);
            let convert = load_turn(missing.load, LoadEventView::Downloaded { path: checkpoint });
            let converted = load_turn(convert.load, LoadEventView::Converted);
            let build_action = LoadActionView::Build {
                backbone,
                decoder: load.decoder,
                language: load.language,
            };
            let building = LoadProgressView::Loading {
                step: 3,
                total: 3,
                component: "backbone + NeuCodec decoder"@,
            };
            &&& fetched.action == (LoadActionView::LookForDecoder { path: load.decoder })
            &&& fetched.reports.len() == 0
            &&& kept.action == build_action
            &&& kept.reports.len() == 2 && kept.reports[1] == building
            &&& kept.reports[0] == (LoadProgressView::Fetching {
                step: 2,
                total: 3,
                file: "neucodec_decoder.safetensors"@,
                repo: "(skill_dir)"@,
                size_mb: None,
            })
            &&& missing.action == (LoadActionView::Download {
                repo: "neuphonic/neucodec"@,
                file: "pytorch_model.bin"@,
                step: 2,
            })
            &&& missing.reports.len() == 1 && missing.reports[0] == (LoadProgressView::Fetching {
                step: 2,
                total: 3,
                file: "pytorch_model.bin"@,
                repo: "neuphonic/neucodec"@,
                size_mb: Some(1100),
            })
            &&& convert.action == (LoadActionView::Convert {
                checkpoint,
                dest: load.decoder,
                heads: 16,
                repo: "neuphonic/neucodec"@,
            })
            &&& convert.reports.len() == 1 && convert.reports[0] == (LoadProgressView::Loading {
                step: 2,
                total: 3,
                component: "converting "@ + "pytorch_model.bin"@ + " → "@
                    + "neucodec_decoder.safetensors"@,
            })
            &&& converted.action == build_action
            &&& converted.reports.len() == 1 && converted.reports[0] == building
            &&& load_turn(kept.load, LoadEventView::Built).action is Succeed
            &&& load_turn(converted.load, LoadEventView::Built).action is Succeed
        }),
{
}

/// The outcomes that are errors.
pub open spec fn is_failure(event: LoadEventView) -> bool {
    event is ConnectFailed || event is ListFailed || event is DownloadFailed
        || event is ConvertFailed || event is BuildFailed
}

/// An error ends a load at once, without a report, and is told with what was
/// being done and the words that came with it.
pub proof fn load_errors_are_told(load: BackboneLoadView, error: Seq<char>)
    ensures
        forall|event: LoadEventView| #[trigger]
            load_expects(load.stage, event) && is_failure(event) ==> {
                let turn = load_turn(load, event);
                turn.action is Fail && turn.load.stage is Finished && turn.reports.len() == 0
            },
        load_turn(load, LoadEventView::ConnectFailed { error }).action == (LoadActionView::Fail {
            error: "Failed to init HF client: "@ + error,
        }),
        load_turn(load, LoadEventView::ListFailed { error }).action == (LoadActionView::Fail {
            error: "Failed to fetch repo info for '"@ + load.repo + "': "@ + error,
        }),
        load_turn(load, LoadEventView::ConvertFailed { error }).action == (LoadActionView::Fail {
            error: "Checkpoint conversion failed: "@ + error,
        }),
        load_turn(load, LoadEventView::BuildFailed { error }).action == (LoadActionView::Fail {
            error: "Failed to load NeuTTS: "@ + error,
        }),
        load.stage is FetchingBackbone ==> load_turn(
            load,
            LoadEventView::DownloadFailed { error },
        ).action == (LoadActionView::Fail {
            error: "Failed to download '"@ + load.stage->file + "' from '"@ + load.repo + "': "@
                + error,
        }),
        load.stage is FetchingDecoder ==> load_turn(
            load,
            LoadEventView::DownloadFailed { error },
        ).action == (LoadActionView::Fail {
            error: "Failed to download '"@ + "pytorch_model.bin"@ + "' from '"@
                + "neuphonic/neucodec"@ + "': "@ + error,
        }),
{
}

/// The file that is being fetched is the one that its error names.
pub proof fn fetched_file_is_remembered(load: BackboneLoadView, event: LoadEventView)
    requires
        load_expects(load.stage, event),
    ensures
        ({
            let turn = load_turn(load, event);
            turn.load.stage is FetchingBackbone ==> turn.action == (LoadActionView::Download {
                repo: load.repo,
                file: turn.load.stage->file,
                step: 1,
            })
        }),
{
}

/// The views of a load, its events and its actions show every part as it is.
pub proof fn load_is_seen_in_full(
    load: BackboneLoad,
    reports: Vec<LoadProgress>,
    action: LoadAction,
    text: String,
    other: String,
    files: Vec<String>,
    path: PathBuf,
    n: u32,
)
    ensures
        load@.repo == load.repo@ && load@.decoder == load.decoder@,
        load@.gguf_file == opt_text(load.gguf_file),
        load@.size_mb == load.size_mb && load@.language == load.language@,
        load@.stage == load.stage@,
        (LoadStage::FetchingBackbone { file: text })@ == (LoadStageView::FetchingBackbone {
            file: text@,
        }),
        (LoadEvent::Listed { files })@ == (LoadEventView::Listed { files: texts(files@) }),
        (LoadEvent::Downloaded { path })@ == (LoadEventView::Downloaded { path }),
        (LoadEvent::ConnectFailed { error: text })@ == (LoadEventView::ConnectFailed {
            error: text@,
        }),
        (LoadEvent::ListFailed { error: text })@ == (LoadEventView::ListFailed { error: text@ }),
        (LoadEvent::DownloadFailed { error: text })@ == (LoadEventView::DownloadFailed {
            error: text@,
        }),
        (LoadEvent::ConvertFailed { error: text })@ == (LoadEventView::ConvertFailed {
            error: text@,
        }),
        (LoadEvent::BuildFailed { error: text })@ == (LoadEventView::BuildFailed { error: text@ }),
        (LoadAction::List { repo: text })@ == (LoadActionView::List { repo: text@ }),
        (LoadAction::Download { repo: text, file: other, step: n })@ == (
        LoadActionView::Download { repo: text@, file: other@, step: n }),
        (LoadAction::LookForDecoder { path: text })@ == (LoadActionView::LookForDecoder {
            path: text@,
        }),
        (LoadAction::Convert { checkpoint: path, dest: text, heads: n, repo: other })@ == (
        LoadActionView::Convert { checkpoint: path, dest: text@, heads: n, repo: other@ }),
        (LoadAction::Build { backbone: path, decoder: text, language: other })@ == (
        LoadActionView::Build { backbone: path, decoder: text@, language: other@ }),
        (LoadAction::Fail { error: text })@ == (LoadActionView::Fail { error: text@ }),
        turn_view((load, reports, action)).load == load@,
        turn_view((load, reports, action)).action == action@,
        turn_view((load, reports, action)).reports.len() == reports@.len(),
        forall|i: int|
            0 <= i < reports@.len() ==> #[trigger] turn_view((load, reports, action)).reports[i]
                == reports@[i]@,
        model_view(Some((text, n))) == Some((text@, n)),
        model_view(None) is None,
{
}

/// A file in the hub's cache is taken from there, reported as complete; only a
/// file that is not there is fetched.
pub proof fn cached_file_is_not_fetched(path: PathBuf)
    ensures
        download_plan(Some(path)) == (DownloadPlan::Cached { path, report: (1u64, 1u64) }),
        download_plan(None) is Fetch,
{
}

/// Bytes are reported as they were counted, under the step of their download, of
/// three.
pub proof fn bytes_are_reported_as_counted(step: u32, arrived: u64, all: u64)
    ensures
        bytes_report(step, (arrived, all)) == (LoadProgressView::Downloading {
            step,
            total: 3,
            downloaded: arrived,
            total_bytes: all,
        }),
{
}

/// Every outcome of an action can be handed to the load, from the first on.
pub proof fn load_takes_every_outcome(
    load: BackboneLoadView,
    event: LoadEventView,
    files: Seq<Seq<char>>,
    path: PathBuf,
    error: Seq<char>,
)
    requires
        load_expects(load.stage, event),
    ensures
        ({
            let turn = load_turn(load, event);
            let stage = turn.load.stage;
            match turn.action {
                LoadActionView::Connect => false,
                LoadActionView::List { .. } => {
                    &&& load_expects(stage, LoadEventView::Listed { files })
                    &&& load_expects(stage, LoadEventView::ListFailed { error })
                },
                LoadActionView::Download { .. } => {
                    &&& load_expects(stage, LoadEventView::Downloaded { path })
                    &&& load_expects(stage, LoadEventView::DownloadFailed { error })
                },
                LoadActionView::LookForDecoder { .. } => {
                    &&& load_expects(stage, LoadEventView::DecoderFound)
                    &&& load_expects(stage, LoadEventView::DecoderMissing)
                },
                LoadActionView::Convert { .. } => {
                    &&& load_expects(stage, LoadEventView::Converted)
                    &&& load_expects(stage, LoadEventView::ConvertFailed { error })
                },
                LoadActionView::Build { .. } => {
                    &&& load_expects(stage, LoadEventView::Built)
                    &&& load_expects(stage, LoadEventView::BuildFailed { error })
                },
                _ => stage is Finished,
            }
        }),
        load_expects(LoadStageView::Connecting, LoadEventView::Connected),
        load_expects(LoadStageView::Connecting, LoadEventView::ConnectFailed { error }),
{
}

} // verus!
