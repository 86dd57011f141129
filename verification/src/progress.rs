//! Progress: what is reported while a model loads, and how it reads to a user.

use vstd::prelude::*;
use vstd::string::*;

use crate::text::{decimal, decimal_text};

verus! {

/// One `tts-progress` event. `phase` is `step`, `ready` or `unloaded`.
#[derive(Debug, PartialEq, Eq)]
pub struct TtsProgressEvent {
    pub phase: &'static str,
    pub step: u32,
    pub total: u32,
    pub label: String,
}

/// A [`TtsProgressEvent`] as mathematical text.
#[verifier::ext_equal]
pub struct TtsProgressEventView {
    pub phase: Seq<char>,
    pub step: u32,
    pub total: u32,
    pub label: Seq<char>,
}

impl View for TtsProgressEvent {
    type V = TtsProgressEventView;

    open spec fn view(&self) -> TtsProgressEventView {
        TtsProgressEventView {
            phase: self.phase@,
            step: self.step,
            total: self.total,
            label: self.label@,
        }
    }
}

/// The event for one step of a load.
pub open spec fn step_event(step: u32, total: u32, label: Seq<char>) -> TtsProgressEventView {
    TtsProgressEventView { phase: "step"@, step, total, label }
}

/// The event for an engine that can speak.
pub open spec fn ready_event() -> TtsProgressEventView {
    TtsProgressEventView { phase: "ready"@, step: 0, total: 0, label: Seq::empty() }
}

/// The event for an engine whose model was dropped.
pub open spec fn unloaded_event() -> TtsProgressEventView {
    TtsProgressEventView { phase: "unloaded"@, step: 0, total: 0, label: Seq::empty() }
}

impl TtsProgressEvent {
    /// Step `step` of `total`, described by `label`.
    pub fn step(step: u32, total: u32, label: String) -> (event: TtsProgressEvent)
        ensures
            event@ == step_event(step, total, label@),
    {
        TtsProgressEvent { phase: "step", step, total, label }
    }

    /// The engine can speak.
    pub fn ready() -> (event: TtsProgressEvent)
        ensures
            event@ == ready_event(),
    {
        TtsProgressEvent { phase: "ready", step: 0, total: 0, label: String::new() }
    }

    /// The engine's model was dropped.
    pub fn unloaded() -> (event: TtsProgressEvent)
        ensures
            event@ == unloaded_event(),
    {
        TtsProgressEvent { phase: "unloaded", step: 0, total: 0, label: String::new() }
    }
}

/// What loading a NeuTTS model reports.
#[derive(Debug, PartialEq, Eq)]
pub enum LoadProgress {
    /// A file is about to be fetched, or taken from a cache.
    Fetching { step: u32, total: u32, file: String, repo: String, size_mb: Option<u32> },
    /// Bytes of the current file have arrived.
    Downloading { step: u32, total: u32, downloaded: u64, total_bytes: u64 },
    /// A component is being built.
    Loading { step: u32, total: u32, component: String },
}

/// A [`LoadProgress`] as mathematical text.
#[verifier::ext_equal]
pub enum LoadProgressView {
    Fetching { step: u32, total: u32, file: Seq<char>, repo: Seq<char>, size_mb: Option<u32> },
    Downloading { step: u32, total: u32, downloaded: u64, total_bytes: u64 },
    Loading { step: u32, total: u32, component: Seq<char> },
}

impl View for LoadProgress {
    type V = LoadProgressView;

    open spec fn view(&self) -> LoadProgressView {
        match *self {
            LoadProgress::Fetching { step, total, file, repo, size_mb } => {
                LoadProgressView::Fetching { step, total, file: file@, repo: repo@, size_mb }
            },
            LoadProgress::Downloading { step, total, downloaded, total_bytes } => {
                LoadProgressView::Downloading { step, total, downloaded, total_bytes }
            },
            LoadProgress::Loading { step, total, component } => {
                LoadProgressView::Loading { step, total, component: component@ }
            },
        }
    }
}

/// Bytes in a megabyte.
pub const MB: u64 = 1_048_576;

/// The event that a report becomes.
pub open spec fn progress_event(p: LoadProgressView) -> TtsProgressEventView {
    match p {
        LoadProgressView::Fetching { step, total, file, repo, size_mb } => step_event(
            step,
            total,
            match size_mb {
                Some(mb) => file + " from "@ + repo + " (~"@ + decimal_text(mb as nat) + " MB)"@,
                None => file + " from "@ + repo,
            },
        ),
        LoadProgressView::Downloading { step, total, downloaded, total_bytes } => step_event(
            step,
            total,
            "Downloading… "@ + decimal_text((downloaded / MB) as nat) + "/"@ + decimal_text(
                (total_bytes / MB) as nat,
            ) + " MB"@,
        ),
        LoadProgressView::Loading { step, total, component } => step_event(step, total, component),
    }
}

/// Words a NeuTTS report for the user.
pub fn neutts_progress_to_event(p: LoadProgress) -> (event: TtsProgressEvent)
    ensures
        event@ == progress_event(p@),
{
    match p {
        LoadProgress::Fetching { step, total, file, repo, size_mb } => {
            let label = match size_mb {
                Some(mb) => file.concat(" from ").concat(repo.as_str()).concat(" (~").concat(
                    decimal(mb as u64).as_str(),
                ).concat(" MB)"),
                None => file.concat(" from ").concat(repo.as_str()),
            };
            TtsProgressEvent::step(step, total, label)
        },
        LoadProgress::Downloading { step, total, downloaded, total_bytes } => {
            let label = "Downloading… ".to_owned().concat(
                decimal(downloaded / MB).as_str(),
            ).concat("/").concat(decimal(total_bytes / MB).as_str()).concat(" MB");
            TtsProgressEvent::step(step, total, label)
        },
        LoadProgress::Loading { step, total, component } => {
            TtsProgressEvent::step(step, total, component)
        },
    }
}

/// What loading a KittenTTS model reports.
#[derive(Debug, PartialEq, Eq)]
pub enum KittenProgress {
    /// A file is about to be fetched, or taken from a cache.
    Fetching { step: u32, total: u32, file: String },
    /// All files are there; the session is being built.
    Loading,
}

/// The event that a KittenTTS report becomes.
pub open spec fn kitten_event(p: KittenProgress) -> TtsProgressEventView {
    match p {
        KittenProgress::Fetching { step, total, file } => step_event(step, total, file@),
        KittenProgress::Loading => step_event(4, 4, "Loading ONNX session"@),
    }
}

/// Words a KittenTTS report for the user.
pub fn kitten_progress_to_event(p: KittenProgress) -> (event: TtsProgressEvent)
    ensures
        event@ == kitten_event(p),
{
    match p {
        KittenProgress::Fetching { step, total, file } => TtsProgressEvent::step(step, total, file),
        KittenProgress::Loading => TtsProgressEvent::step(4, 4, "Loading ONNX session".to_owned()),
    }
}

/// Counts the bytes of one download.
#[derive(Debug, PartialEq, Eq)]
pub struct DownloadMeter {
    /// The bytes that have arrived.
    pub done: u64,
    /// The bytes that the download has.
    pub total: u64,
}

/// A download of which nothing is known.
pub open spec fn new_meter() -> DownloadMeter {
    DownloadMeter { done: 0, total: 0 }
}

/// A download whose size has become known, and what that reports.
pub open spec fn sized_meter(meter: DownloadMeter, size: usize) -> (DownloadMeter, (u64, u64)) {
    (DownloadMeter { total: size as u64, ..meter }, (0u64, size as u64))
}

/// A download of which more bytes have arrived, and what that reports.
pub open spec fn fed_meter(meter: DownloadMeter, n: usize) -> (DownloadMeter, (u64, u64)) {
    let done = (meter.done + n) as u64;
    (DownloadMeter { done, ..meter }, (done, meter.total))
}

/// What a complete download reports.
pub open spec fn full_report(meter: DownloadMeter) -> (u64, u64) {
    (meter.total, meter.total)
}

impl DownloadMeter {
    /// A download of which nothing is known.
    pub fn new() -> (meter: DownloadMeter)
        ensures
            meter == new_meter(),
    {
        DownloadMeter { done: 0, total: 0 }
    }

    /// Takes the size of the download. Yields what to report: the bytes that
    /// have arrived, and all.
    pub fn init(&mut self, size: usize) -> (report: (u64, u64))
        ensures
            (*final(self), report) == sized_meter(*old(self), size),
    {
        self.total = size as u64;
        (0, self.total)
    }

    /// Counts `n` bytes that have arrived on top of those before.
    pub fn update(&mut self, n: usize) -> (report: (u64, u64))
        requires
            old(self).done + n <= u64::MAX,
        ensures
            (*final(self), report) == fed_meter(*old(self), n),
            final(self).done == old(self).done + n,
    {
        self.done = self.done + n as u64;
        (self.done, self.total)
    }

    /// The download is complete, whatever was counted.
    pub fn finish(&mut self) -> (report: (u64, u64))
        ensures
            *final(self) == *old(self),
            report == full_report(*old(self)),
    {
        (self.total, self.total)
    }
}

/// Whether an event is for a step, and for which.
pub open spec fn is_step(event: TtsProgressEventView, step: u32, total: u32) -> bool {
    event.phase == "step"@ && event.step == step && event.total == total
}

/// Every NeuTTS report becomes an event for its own step. A file is told with its
/// repository and, where it is known, its size; bytes are told in whole
/// megabytes, those that have arrived first; a component is told as it is.
pub proof fn reports_are_told(
    step: u32,
    total: u32,
    file: Seq<char>,
    repo: Seq<char>,
    mb: u32,
    downloaded: u64,
    total_bytes: u64,
)
    ensures
        ({
            let sized = progress_event(
                LoadProgressView::Fetching { step, total, file, repo, size_mb: Some(mb) },
            );
            let plain = progress_event(
                LoadProgressView::Fetching { step, total, file, repo, size_mb: None },
            );
            let bytes = progress_event(
                LoadProgressView::Downloading { step, total, downloaded, total_bytes },
            );
            let building = progress_event(
                LoadProgressView::Loading { step, total, component: file },
            );
            let arrived = (downloaded / 1_048_576) as nat;
            let all = (total_bytes / 1_048_576) as nat;
            &&& is_step(sized, step, total)
            &&& is_step(plain, step, total)
            &&& is_step(bytes, step, total)
            &&& is_step(building, step, total)
            &&& plain.label == file + " from "@ + repo
            &&& sized.label == plain.label + " (~"@ + decimal_text(mb as nat) + " MB)"@
            &&& bytes.label == "Downloading… "@ + decimal_text(arrived) + "/"@ + decimal_text(all)
                + " MB"@
            &&& building.label == file
        }),
{
}

/// A KittenTTS file is told under its own step by its name alone; building the
/// session is the fourth step of four.
pub proof fn kitten_reports_are_told(step: u32, total: u32, file: String)
    ensures
        ({
            let fetching = kitten_event(KittenProgress::Fetching { step, total, file });
            let loading = kitten_event(KittenProgress::Loading);
            &&& is_step(fetching, step, total)
            &&& fetching.label == file@
            &&& is_step(loading, 4, 4)
            &&& loading.label == "Loading ONNX session"@
        }),
{
}

/// The three phases are told apart by name, and only a step has numbers and
/// words.
pub proof fn phases_are_told_apart(step: u32, total: u32, label: Seq<char>)
    ensures
        is_step(step_event(step, total, label), step, total),
        step_event(step, total, label).label == label,
        ready_event().phase == "ready"@,
        unloaded_event().phase == "unloaded"@,
        ready_event().step == 0 && ready_event().total == 0 && ready_event().label.len() == 0,
        unloaded_event().step == 0 && unloaded_event().total == 0
            && unloaded_event().label.len() == 0,
{
}

/// The views of reports and events show every part as it is.
pub proof fn progress_is_seen_in_full(
    event: TtsProgressEvent,
    step: u32,
    total: u32,
    file: String,
    repo: String,
    size_mb: Option<u32>,
    downloaded: u64,
    total_bytes: u64,
)
    ensures
        event@.phase == event.phase@ && event@.label == event.label@,
        event@.step == event.step && event@.total == event.total,
        (LoadProgress::Fetching { step, total, file, repo, size_mb })@ == (
        LoadProgressView::Fetching { step, total, file: file@, repo: repo@, size_mb }),
        (LoadProgress::Downloading { step, total, downloaded, total_bytes })@ == (
        LoadProgressView::Downloading { step, total, downloaded, total_bytes }),
        (LoadProgress::Loading { step, total, component: file })@ == (LoadProgressView::Loading {
            step,
            total,
            component: file@,
        }),
{
}

/// A download counts up from nothing: its size is reported with no bytes arrived,
/// then each report holds all bytes that have arrived so far and the size, and the
/// last one the size twice.
pub proof fn download_counts_up(size: usize, first: usize, second: usize)
    requires
        first + second <= u64::MAX,
    ensures
        ({
            let sized = sized_meter(new_meter(), size);
            let one = fed_meter(sized.0, first);
            let two = fed_meter(one.0, second);
            &&& sized.1 == (0u64, size as u64)
            &&& one.1.0 == first && one.1.1 == size
            &&& two.1.0 == first + second && two.1.1 == size
            &&& full_report(two.0) == (size as u64, size as u64)
        }),
{
}

/// Bytes that arrive are added to those before, and the size stays.
pub proof fn bytes_add_up(meter: DownloadMeter, n: usize)
    requires
        meter.done + n <= u64::MAX,
    ensures
        fed_meter(meter, n).0.done == meter.done + n,
        fed_meter(meter, n).0.total == meter.total,
        fed_meter(meter, n).1.0 == meter.done + n,
        fed_meter(meter, n).1.1 == meter.total,
{
}

} // verus!
