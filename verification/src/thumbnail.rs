//! Thumbnails: one preview per request, made by the first strategy of a
//! fixed chain that succeeds. The last strategy, a synthetic placeholder,
//! needs no outside work.
//!
//! A request is a `ThumbnailJob`. The caller asks it what to do next with
//! `request`, does that, and hands the result to `advance`, until the job
//! is done.

use vstd::prelude::*;
use vstd::string::StringExecFns;
use crate::encoding::{base64_text, data_uri, data_uri_of, data_uri_text, is_data_uri};
use crate::media::{MediaKind, classify, kind_of, lowercase_extension, mime_of, mime_type};
use crate::path::{extension, extension_of, text_of};
use crate::placeholder::{placeholder_canvas, placeholder_pixels};
use crate::platform::Platform;
use crate::raster::{
    canvas_png, decode_image, decoded_image,
    encoded_view, format_for_extension,
    image_format_for, image_layout,
    image_png, image_samples,
    names_image_format,
    png_encoding, png_of_image,
    scale_to_fit,
    scaled_image,
};
use crate::text::{lowercase, owned, texts};

verus! {

/// A thumbnail fits within a square of this many pixels a side.
pub const BOUND: u32 = 250;

/// One way of making a thumbnail.
#[derive(Clone, Copy, Debug, PartialEq, Eq, Structural)]
pub enum Strategy {
    /// Decode the file as an image and scale it down.
    NativeDecode,
    /// Have an external program extract a frame of a video.
    FrameExtractor,
    /// Ask the platform's thumbnail service.
    PlatformService,
    /// Draw a placeholder.
    Placeholder,
}

/// The strategies for a file of a kind, in the order in which they are
/// tried. Videos go to the frame extractor, where one is installed, then to
/// the platform's service, where there is one; everything else is decoded as
/// an image. The placeholder comes last in every case.
pub open spec fn strategy_plan(kind: MediaKind, extractor: bool, service: bool) -> Seq<Strategy> {
    if kind == MediaKind::Video {
        (if extractor {
            seq![Strategy::FrameExtractor]
        } else {
            Seq::<Strategy>::empty()
        }) + (if service {
            seq![Strategy::PlatformService]
        } else {
            Seq::<Strategy>::empty()
        }) + seq![Strategy::Placeholder]
    } else {
        seq![Strategy::NativeDecode, Strategy::Placeholder]
    }
}

/// Every plan ends with the placeholder and holds it nowhere else, so a
/// request never runs out of strategies. Videos are handed to the frame
/// extractor or the platform's service and never decoded; every other file
/// is decoded, and the placeholder follows at once.
pub proof fn lemma_plans_end_with_placeholder(kind: MediaKind)
    ensures
        forall|plan: Seq<Strategy>| #[trigger]
            is_plan_for(plan, kind) ==> {
                &&& 1 <= plan.len() <= 3
                &&& plan.last() == Strategy::Placeholder
                &&& forall|i: int| 0 <= i < plan.len() - 1 ==> plan[i] != Strategy::Placeholder
                &&& kind == MediaKind::Video ==> forall|i: int|
                    0 <= i < plan.len() ==> plan[i] != Strategy::NativeDecode
                &&& kind != MediaKind::Video ==> plan == seq![
                    Strategy::NativeDecode,
                    Strategy::Placeholder,
                ]
            },
{
}

/// Whether `plan` is the plan for a file of a kind, whatever the machine
/// offers.
pub open spec fn is_plan_for(plan: Seq<Strategy>, kind: MediaKind) -> bool {
    ||| plan == strategy_plan(kind, true, true)
    ||| plan == strategy_plan(kind, true, false)
    ||| plan == strategy_plan(kind, false, true)
    ||| plan == strategy_plan(kind, false, false)
}

/// The strategies for a file of a kind, in the order in which they are tried.
pub fn plan_strategies(kind: MediaKind, extractor: bool, service: bool) -> (r: Vec<Strategy>)
    ensures
        r@ == strategy_plan(kind, extractor, service),
{
    let mut plan: Vec<Strategy> = Vec::new();
    if kind == MediaKind::Video {
        if extractor {
            plan.push(Strategy::FrameExtractor);
        }
        if service {
            plan.push(Strategy::PlatformService);
        }
    } else {
        plan.push(Strategy::NativeDecode);
    }
    plan.push(Strategy::Placeholder);
    assert(plan@ =~= strategy_plan(kind, extractor, service));
    plan
}

/// The arguments that make the frame extractor write the frame one second
/// into `input`, scaled to the thumbnail's width, to `output`.
pub open spec fn extractor_arguments(input: Seq<char>, output: Seq<char>) -> Seq<Seq<char>> {
    seq![
        "-i"@,
        input,
        "-ss"@,
        "00:00:01"@,
        "-vframes"@,
        "1"@,
        "-vf"@,
        "scale=250:-1"@,
        "-y"@,
        output,
    ]
}

/// The arguments that make the frame extractor write the frame one second
/// into `input`, scaled to the thumbnail's width, to `output`.
pub fn frame_extractor_arguments(input: &str, output: &str) -> (r: Vec<String>)
    ensures
        texts(r@) == extractor_arguments(input@, output@),
{
    let mut arguments: Vec<String> = Vec::new();
    arguments.push(owned("-i"));
    arguments.push(owned(input));
    arguments.push(owned("-ss"));
    arguments.push(owned("00:00:01"));
    arguments.push(owned("-vframes"));
    arguments.push(owned("1"));
    arguments.push(owned("-vf"));
    arguments.push(owned("scale=250:-1"));
    arguments.push(owned("-y"));
    arguments.push(owned(output));
    assert(texts(arguments@) =~= extractor_arguments(input@, output@));
    arguments
}

/// What a run of the frame extractor came to.
pub struct ExtractorRun {
    /// Whether the program could be started at all.
    pub launched: bool,
    /// Whether it ended with exit status zero.
    pub succeeded: bool,
    /// The bytes of the file that it was to write, where that file is there
    /// and readable.
    pub output: Option<Vec<u8>>,
}

impl ExtractorRun {
    /// The frame that the run produced. A program that did not start or
    /// ended with a status other than zero, or an output file that is not
    /// there, leaves none.
    pub open spec fn frame(self) -> Option<Seq<u8>> {
        if self.launched && self.succeeded {
            match self.output {
                Some(bytes) => Some(bytes@),
                None => None,
            }
        } else {
            None
        }
    }

    /// The frame that the run produced, if any.
    pub fn into_frame(self) -> (r: Option<Vec<u8>>)
        ensures
            bytes_of(r) == self.frame(),
    {
        if self.launched && self.succeeded {
            self.output
        } else {
            None
        }
    }
}

/// The view of optional bytes.
pub open spec fn bytes_of(o: Option<Vec<u8>>) -> Option<Seq<u8>> {
    match o {
        Some(bytes) => Some(bytes@),
        None => None,
    }
}

/// Why a request ended without a thumbnail.
#[derive(Debug, PartialEq, Eq)]
pub enum ThumbnailError {
    /// The file to preview does not exist.
    NotFound,
    /// The placeholder could not be encoded; the text says why.
    PlaceholderEncoding(String),
}

/// A `ThumbnailError` with its text as characters.
pub enum ThumbnailFailure {
    NotFound,
    PlaceholderEncoding(Seq<char>),
}

impl View for ThumbnailError {
    type V = ThumbnailFailure;

    open spec fn view(&self) -> ThumbnailFailure {
        match self {
            ThumbnailError::NotFound => ThumbnailFailure::NotFound,
            ThumbnailError::PlaceholderEncoding(text) => ThumbnailFailure::PlaceholderEncoding(
                text@,
            ),
        }
    }
}

impl ThumbnailFailure {
    /// The message of the failure.
    pub open spec fn message(self) -> Seq<char> {
        match self {
            ThumbnailFailure::NotFound => "File does not exist"@,
            ThumbnailFailure::PlaceholderEncoding(text) => "Error writing PNG: "@ + text,
        }
    }
}

impl ThumbnailError {
    /// The message of the error.
    pub fn message(&self) -> (r: String)
        ensures
            r@ == self@.message(),
    {
        match self {
            ThumbnailError::NotFound => owned("File does not exist"),
            ThumbnailError::PlaceholderEncoding(text) => {
                let mut out = owned("Error writing PNG: ");
                out.append(text.as_str());
                out
            },
        }
    }
}

/// The view of the outcome of a request.
pub open spec fn outcome_view(r: Result<String, ThumbnailError>) -> Result<
    Seq<char>,
    ThumbnailFailure,
> {
    match r {
        Ok(uri) => Ok(uri@),
        Err(e) => Err(e@),
    }
}

/// The thumbnail that a strategy's PNG bytes make for the file at `path`:
/// a data URI under the MIME type of the file. A strategy that gave nothing,
/// or more than can be encoded, makes none.
pub open spec fn thumbnail_of(path: Seq<char>, png: Option<Seq<u8>>) -> Option<Seq<char>> {
    match png {
        Some(bytes) => data_uri_of(mime_of(path), bytes),
        None => None,
    }
}

/// The outcome of the placeholder strategy for the file at `path`, given
/// what encoding the placeholder as PNG came to: the bytes, or the
/// encoder's complaint.
pub open spec fn placeholder_outcome(path: Seq<char>, encoded: Result<Seq<u8>, Seq<char>>) -> Result<
    Seq<char>,
    ThumbnailFailure,
> {
    match encoded {
        Ok(bytes) => match data_uri_of(mime_of(path), bytes) {
            Some(uri) => Ok(uri),
            None => Err(ThumbnailFailure::PlaceholderEncoding("image too large"@)),
        },
        Err(text) => Err(ThumbnailFailure::PlaceholderEncoding(text)),
    }
}

/// The outcome of the placeholder strategy for the file at `path`: the PNG
/// of the placeholder of the file's kind, under the MIME type of the file.
/// It fails only where the placeholder cannot be encoded.
pub open spec fn placeholder_result(path: Seq<char>) -> Result<Seq<char>, ThumbnailFailure> {
    placeholder_outcome(path, png_encoding(250, 250, placeholder_pixels(kind_of(path))))
}

/// The thumbnail that a strategy's PNG bytes make for the file at `path`.
pub fn wrap_thumbnail(path: &str, png: &Option<Vec<u8>>) -> (r: Option<String>)
    ensures
        text_of(r) == thumbnail_of(path@, bytes_of(*png)),
{
    match png {
        Some(bytes) => data_uri(mime_type(path), bytes),
        None => None,
    }
}

/// The outcome of the placeholder strategy for the file at `path`, given
/// what encoding the placeholder as PNG came to.
pub fn wrap_placeholder(path: &str, encoded: Result<Vec<u8>, String>) -> (r: Result<
    String,
    ThumbnailError,
>)
    ensures
        outcome_view(r) == placeholder_outcome(path@, encoded_view(encoded)),
{
    match encoded {
        Ok(bytes) => match data_uri(mime_type(path), &bytes) {
            Some(uri) => Ok(uri),
            None => Err(ThumbnailError::PlaceholderEncoding(owned("image too large"))),
        },
        Err(text) => Err(ThumbnailError::PlaceholderEncoding(text)),
    }
}

/// The placeholder of a kind as a PNG file, or the encoder's complaint.
pub fn placeholder_png(kind: MediaKind) -> (r: Result<Vec<u8>, String>)
    ensures
        encoded_view(r) == png_encoding(250, 250, placeholder_pixels(kind)),
{
    let canvas = placeholder_canvas(kind);
    canvas_png(&canvas)
}

/// The placeholder thumbnail of the file at `path`.
pub fn placeholder_thumbnail(path: &str) -> (r: Result<String, ThumbnailError>)
    ensures
        outcome_view(r) == placeholder_result(path@),
{
    let (_, kind) = classify(path);
    wrap_placeholder(path, placeholder_png(kind))
}

/// Whether the extension of a path names a format that can be decoded.
pub open spec fn decodable(path: Seq<char>) -> bool {
    extension(path) matches Some(e) && names_image_format(lowercase(e))
}

/// The PNG of the image that `bytes` hold, scaled down to the thumbnail's
/// bound. The extension of `path` tells the format: where it names none,
/// nothing is decoded.
pub fn native_thumbnail(path: &str, bytes: &Vec<u8>) -> (r: Option<Vec<u8>>)
    ensures
        bytes_of(r) == native_png(path@, bytes@),
{
    match extension_of(path) {
        None => None,
        Some(e) => match format_for_extension(e.as_str()) {
            None => None,
            Some(format) => match decode_image(bytes.as_slice(), format) {
                Err(_) => None,
                Ok(image) => {
                    let small = scale_to_fit(&image, BOUND, BOUND);
                    match image_png(&small) {
                        Ok(png) => Some(png),
                        Err(_) => None,
                    }
                },
            },
        },
    }
}

/// The PNG of an image that the platform's service rendered.
fn rendered_thumbnail(image: &image::DynamicImage) -> (r: Option<Vec<u8>>)
    ensures
        bytes_of(r) == rendered_png(*image),
{
    match image_png(image) {
        Ok(png) => Some(png),
        Err(_) => None,
    }
}

/// The PNG of the image that the bytes of the file at `path` hold, scaled
/// to fit within the thumbnail's bound.
///
/// The extension of the path, as it is written, tells the format; where it
/// names none, there is nothing. Else the bytes are decoded in that format,
/// the image is scaled to fit within 250 by 250, and the scaled image is
/// written as PNG. Where the bytes hold no image, or the scaled image
/// cannot be written, there is nothing either.
pub open spec fn native_png(path: Seq<char>, bytes: Seq<u8>) -> Option<Seq<u8>> {
    if decodable(path) {
        match image_format_for(extension(path).unwrap()) {
            Some(format) => match decoded_image(bytes, format) {
                Some((layout, samples)) => {
                    let small = scaled_image(layout, samples, 250, 250);
                    png_of_image(small.0, small.1)
                },
                None => None,
            },
            None => None,
        }
    } else {
        None
    }
}

/// The PNG of an image as it is, where it can be written.
pub open spec fn rendered_png(image: image::DynamicImage) -> Option<Seq<u8>> {
    png_of_image(image_layout(image), image_samples(image))
}

/// What is known of the machine that thumbnails are made on. It outlives
/// the single request: whether the frame extractor is installed is found
/// out once, by the first request that needs to know, and remembered.
pub struct ThumbnailEngine {
    pub platform: Platform,
    /// Whether the frame extractor was found, once that has been looked into.
    pub extractor: Option<bool>,
}

impl ThumbnailEngine {
    /// An engine that has not looked for the frame extractor yet.
    pub fn new(platform: Platform) -> (r: ThumbnailEngine)
        ensures
            r.platform == platform,
            r.extractor is None,
    {
        ThumbnailEngine { platform, extractor: None }
    }
}

/// What the caller is to do next for a job.
#[derive(Clone, Copy, Debug, PartialEq, Eq, Structural)]
pub enum ThumbnailRequest {
    /// Find out whether the file exists, and answer with `Exists`.
    CheckExists,
    /// Look for the frame extractor on the execution path, and answer with
    /// `Located`.
    LocateExtractor,
    /// Read the file, and answer with `Source`.
    ReadSource,
    /// Run the frame extractor on the file, and answer with `Frame`.
    ExtractFrame,
    /// Ask the platform's thumbnail service for a rendering within the
    /// thumbnail's bound, and answer with `Rendered`.
    PlatformThumbnail,
    /// Nothing: the job has its outcome.
    Done,
}

/// The result of the work that a request asked for.
pub enum ThumbnailReply {
    /// Whether the file exists.
    Exists(bool),
    /// Whether the frame extractor was found.
    Located(bool),
    /// The bytes of the file, unless it could not be read.
    Source(Option<Vec<u8>>),
    /// What the run of the frame extractor came to.
    Frame(ExtractorRun),
    /// The rendering of the platform's service, unless it gave none.
    Rendered(Option<image::DynamicImage>),
}

/// How far a job has come.
pub enum Stage {
    /// Waiting to hear whether the file exists.
    Probing,
    /// Waiting to hear whether the frame extractor is installed.
    Locating,
    /// Waiting for the result of the strategy that is being tried.
    Trying,
    /// Done, with a thumbnail or the reason why there is none.
    Finished(Result<String, ThumbnailError>),
}

/// A `Stage` with its texts as characters.
pub enum StageView {
    Probing,
    Locating,
    Trying,
    Finished(Result<Seq<char>, ThumbnailFailure>),
}

impl View for Stage {
    type V = StageView;

    open spec fn view(&self) -> StageView {
        match self {
            Stage::Probing => StageView::Probing,
            Stage::Locating => StageView::Locating,
            Stage::Trying => StageView::Trying,
            Stage::Finished(r) => StageView::Finished(outcome_view(*r)),
        }
    }
}

/// One request for a thumbnail.
pub struct ThumbnailJob {
    path: String,
    plan: Vec<Strategy>,
    at: usize,
    stage: Stage,
}

/// The state of a job.
pub struct JobView {
    /// The file to preview.
    pub path: Seq<char>,
    /// The strategies of this job, once they have been chosen.
    pub plan: Seq<Strategy>,
    /// The position in `plan` of the strategy that is being tried.
    pub at: int,
    pub stage: StageView,
}

impl JobView {
    /// While a strategy is being tried, the plan is the plan for the kind
    /// of the file, and the strategy is not its last, the placeholder. A
    /// thumbnail, once there, is a data URI under the MIME type of the
    /// file.
    pub open spec fn wf(self) -> bool {
        match self.stage {
            StageView::Probing | StageView::Locating => true,
            StageView::Trying => {
                &&& 0 <= self.at < self.plan.len() - 1
                &&& is_plan_for(self.plan, kind_of(self.path))
            },
            StageView::Finished(Ok(uri)) => is_data_uri(uri, mime_of(self.path)),
            StageView::Finished(Err(_)) => true,
        }
    }

    /// What the caller is to do next.
    pub open spec fn request(self) -> ThumbnailRequest {
        match self.stage {
            StageView::Probing => ThumbnailRequest::CheckExists,
            StageView::Locating => ThumbnailRequest::LocateExtractor,
            StageView::Trying => match self.plan[self.at] {
                Strategy::NativeDecode => ThumbnailRequest::ReadSource,
                Strategy::FrameExtractor => ThumbnailRequest::ExtractFrame,
                Strategy::PlatformService => ThumbnailRequest::PlatformThumbnail,
                Strategy::Placeholder => ThumbnailRequest::Done,
            },
            StageView::Finished(_) => ThumbnailRequest::Done,
        }
    }

    /// The most replies that the job may still need.
    pub open spec fn replies_left(self) -> nat {
        match self.stage {
            StageView::Probing => 4,
            StageView::Locating => 3,
            StageView::Trying => if self.at < self.plan.len() - 1 && self.plan.len() <= 3 {
                (self.plan.len() - 1 - self.at) as nat
            } else {
                2
            },
            StageView::Finished(_) => 0,
        }
    }

    /// The job with another stage.
    pub open spec fn at_stage(self, stage: StageView) -> JobView {
        JobView { stage, ..self }
    }
}

/// `v` gone on to the strategy after the one at `v.at`. Where that is the
/// placeholder, the job is done, with the outcome of the placeholder. Any
/// other strategy is now being tried.
pub open spec fn moved_on(v: JobView) -> JobView {
    JobView {
        at: v.at + 1,
        stage: if v.plan[v.at + 1] == Strategy::Placeholder {
            StageView::Finished(placeholder_result(v.path))
        } else {
            StageView::Trying
        },
        ..v
    }
}

/// `v` after the strategy that was being tried gave `png`: done with the
/// thumbnail made of it, or, where it makes none, gone on to the next
/// strategy.
pub open spec fn settled(v: JobView, png: Option<Seq<u8>>) -> JobView {
    match thumbnail_of(v.path, png) {
        Some(uri) => v.at_stage(StageView::Finished(Ok(uri))),
        None => moved_on(v),
    }
}

/// `v` with its strategies chosen and the first of them taken up.
pub open spec fn planned(v: JobView, extractor: bool, service: bool) -> JobView {
    moved_on(JobView { plan: strategy_plan(kind_of(v.path), extractor, service), at: -1, ..v })
}

/// Job `w` and engine `f` are what job `v` and engine `e` become by
/// `reply`.
///
/// A file that does not exist ends the job with `NotFound`. For one that
/// exists the strategies are chosen, after the frame extractor has been
/// looked for where the file is a video and the engine does not know yet.
/// The result of a strategy settles the job: its PNG bytes make the
/// thumbnail, and where it has none the next strategy is taken up. A frame
/// of the extractor is taken as it is; the bytes of the file are decoded,
/// scaled and written as PNG; a rendering of the platform's service is
/// written as PNG. A reply that does not answer the pending request changes
/// nothing.
pub open spec fn advanced(
    v: JobView,
    e: ThumbnailEngine,
    reply: ThumbnailReply,
    w: JobView,
    f: ThumbnailEngine,
) -> bool {
    match (v.stage, reply) {
        (StageView::Probing, ThumbnailReply::Exists(found)) => {
            &&& f == e
            &&& if !found {
                w == v.at_stage(StageView::Finished(Err(ThumbnailFailure::NotFound)))
            } else if kind_of(v.path) == MediaKind::Video && e.extractor is None {
                w == v.at_stage(StageView::Locating)
            } else {
                w == planned(v, e.extractor == Some(true), e.platform.has_thumbnail_service())
            }
        },
        (StageView::Locating, ThumbnailReply::Located(found)) => {
            &&& f.platform == e.platform
            &&& f.extractor == Some(found)
            &&& w == planned(v, found, e.platform.has_thumbnail_service())
        },
        (StageView::Trying, ThumbnailReply::Source(source)) => {
            &&& f == e
            &&& if v.plan[v.at] != Strategy::NativeDecode {
                w == v
            } else {
                w == settled(
                    v,
                    match source {
                        Some(bytes) => native_png(v.path, bytes@),
                        None => None,
                    },
                )
            }
        },
        (StageView::Trying, ThumbnailReply::Frame(run)) => {
            &&& f == e
            &&& if v.plan[v.at] != Strategy::FrameExtractor {
                w == v
            } else {
                w == settled(v, run.frame())
            }
        },
        (StageView::Trying, ThumbnailReply::Rendered(image)) => {
            &&& f == e
            &&& if v.plan[v.at] != Strategy::PlatformService {
                w == v
            } else {
                w == settled(
                    v,
                    match image {
                        Some(image) => rendered_png(image),
                        None => None,
                    },
                )
            }
        },
        _ => w == v && f == e,
    }
}

/// Whether the reply is of the sort that the request asks for.
pub open spec fn answers(reply: ThumbnailReply, request: ThumbnailRequest) -> bool {
    match (request, reply) {
        (ThumbnailRequest::CheckExists, ThumbnailReply::Exists(_)) => true,
        (ThumbnailRequest::LocateExtractor, ThumbnailReply::Located(_)) => true,
        (ThumbnailRequest::ReadSource, ThumbnailReply::Source(_)) => true,
        (ThumbnailRequest::ExtractFrame, ThumbnailReply::Frame(_)) => true,
        (ThumbnailRequest::PlatformThumbnail, ThumbnailReply::Rendered(_)) => true,
        _ => false,
    }
}

/// A request for a thumbnail always ends: every reply that answers the
/// pending request brings the job closer to its outcome, which is never
/// more than four replies away, and a job that needs no more replies has
/// its outcome.
pub proof fn lemma_job_comes_to_an_end(
    v: JobView,
    e: ThumbnailEngine,
    reply: ThumbnailReply,
    w: JobView,
    f: ThumbnailEngine,
)
    requires
        v.wf(),
        advanced(v, e, reply, w, f),
        answers(reply, v.request()),
    ensures
        w.replies_left() < v.replies_left() <= 4,
        v.stage is Finished <==> v.replies_left() == 0,
{
    lemma_plans_end_with_placeholder(kind_of(v.path));
}

/// A file that cannot be decoded gets the placeholder: where the file is
/// no video and its extension names no image format, as with `heic`, the
/// job ends with the placeholder of the file's kind, whatever the file
/// holds.
pub proof fn lemma_undecodable_file_gets_the_placeholder(
    v: JobView,
    e: ThumbnailEngine,
    source: Option<Vec<u8>>,
    w: JobView,
    f: ThumbnailEngine,
)
    requires
        v.wf(),
        v.stage == StageView::Trying,
        kind_of(v.path) != MediaKind::Video,
        !decodable(v.path),
        advanced(v, e, ThumbnailReply::Source(source), w, f),
    ensures
        w.stage == StageView::Finished(placeholder_result(v.path)),
{
    lemma_plans_end_with_placeholder(kind_of(v.path));
}

/// A file with the extension `heic`, in any case, is an image that is
/// never decoded.
pub proof fn lemma_heic_is_never_decoded(path: Seq<char>)
    requires
        lowercase_extension(path) == Some("heic"@),
    ensures
        kind_of(path) == MediaKind::Image,
        mime_of(path) == "image/heic"@,
        !decodable(path),
{
    reveal_strlit("heic");
    reveal_strlit("avif");
    reveal_strlit("jpg");
    reveal_strlit("jpeg");
    reveal_strlit("jfif");
    reveal_strlit("png");
    reveal_strlit("apng");
    reveal_strlit("gif");
    reveal_strlit("webp");
    reveal_strlit("tif");
    reveal_strlit("tiff");
    reveal_strlit("tga");
    reveal_strlit("dds");
    reveal_strlit("bmp");
    reveal_strlit("ico");
    reveal_strlit("hdr");
    reveal_strlit("exr");
    reveal_strlit("pbm");
    reveal_strlit("pam");
    reveal_strlit("ppm");
    reveal_strlit("pgm");
    reveal_strlit("pnm");
    reveal_strlit("ff");
    reveal_strlit("qoi");
    let h = "heic"@;
    assert(h.len() == 4 && h[0] == 'h' && h[1] == 'e' && h[2] == 'i' && h[3] == 'c');
    assert("hdr"@.len() == 3);
    assert("jpeg"@[0] == 'j' && "jfif"@[0] == 'j' && "avif"@[0] == 'a' && "apng"@[0] == 'a');
    assert("webp"@[0] == 'w' && "tiff"@[0] == 't');
    assert("jpg"@.len() == 3 && "png"@.len() == 3 && "gif"@.len() == 3 && "tif"@.len() == 3);
    assert("tga"@.len() == 3 && "dds"@.len() == 3 && "bmp"@.len() == 3 && "ico"@.len() == 3);
    assert("exr"@.len() == 3 && "pbm"@.len() == 3 && "pam"@.len() == 3 && "ppm"@.len() == 3);
    assert("pgm"@.len() == 3 && "pnm"@.len() == 3 && "ff"@.len() == 2 && "qoi"@.len() == 3);
}

/// The thumbnail that a job ends with carries the MIME type that the
/// classifier gives the file, whichever strategy made it.
pub proof fn lemma_thumbnail_carries_the_files_mime(job: JobView, uri: Seq<char>)
    requires
        job.wf(),
        job.stage == StageView::Finished(Ok(uri)),
    ensures
        is_data_uri(uri, mime_of(job.path)),
{
}

impl View for ThumbnailJob {
    type V = JobView;

    closed spec fn view(&self) -> JobView {
        JobView { path: self.path@, plan: self.plan@, at: self.at as int, stage: self.stage@ }
    }
}

impl ThumbnailJob {
    /// The invariant of a job.
    pub open spec fn wf(&self) -> bool {
        self@.wf()
    }

    /// A job for the file at `path`. It begins by asking whether the file
    /// exists.
    pub fn new(path: String) -> (r: ThumbnailJob)
        ensures
            r.wf(),
            r@ == (JobView { path: path@, plan: Seq::empty(), at: 0, stage: StageView::Probing }),
    {
        ThumbnailJob { path, plan: Vec::new(), at: 0, stage: Stage::Probing }
    }

    /// The file to preview.
    pub fn path(&self) -> (r: &str)
        ensures
            r@ == self@.path,
    {
        self.path.as_str()
    }

    /// What the caller is to do next.
    pub fn request(&self) -> (r: ThumbnailRequest)
        requires
            self.wf(),
        ensures
            r == self@.request(),
    {
        match &self.stage {
            Stage::Probing => ThumbnailRequest::CheckExists,
            Stage::Locating => ThumbnailRequest::LocateExtractor,
            Stage::Trying => match self.plan[self.at] {
                Strategy::NativeDecode => ThumbnailRequest::ReadSource,
                Strategy::FrameExtractor => ThumbnailRequest::ExtractFrame,
                Strategy::PlatformService => ThumbnailRequest::PlatformThumbnail,
                Strategy::Placeholder => ThumbnailRequest::Done,
            },
            Stage::Finished(_) => ThumbnailRequest::Done,
        }
    }

    /// The outcome of the job, once it is done.
    pub fn into_outcome(self) -> (r: Option<Result<String, ThumbnailError>>)
        ensures
            match self@.stage {
                StageView::Finished(outcome) => r matches Some(o) && outcome_view(o) == outcome,
                _ => r is None,
            },
    {
        match self.stage {
            Stage::Finished(outcome) => Some(outcome),
            _ => None,
        }
    }

    /// Takes up the strategy at `self.at`, which follows the one that failed.
    fn enter(&mut self)
        requires
            old(self).at < old(self).plan@.len(),
            is_plan_for(old(self).plan@, kind_of(old(self).path@)),
        ensures
            final(self).wf(),
            final(self)@ == moved_on(JobView { at: old(self).at - 1, ..old(self)@ }),
    {
        proof {
            lemma_plans_end_with_placeholder(kind_of(self.path@));
        }
        if self.plan[self.at] == Strategy::Placeholder {
            let outcome = placeholder_thumbnail(self.path.as_str());
            proof {
                if let Ok(uri) = &outcome {
                    let encoded = png_encoding(
                        250,
                        250,
                        placeholder_pixels(kind_of(self.path@)),
                    );
                    assert(uri@ == data_uri_text(
                        mime_of(self.path@),
                        base64_text(encoded->Ok_0),
                    ));
                }
            }
            self.stage = Stage::Finished(outcome);
        } else {
            self.stage = Stage::Trying;
        }
    }

    /// Chooses the strategies and takes up the first.
    fn start(&mut self, extractor: bool, service: bool)
        ensures
            final(self).wf(),
            final(self)@ == planned(old(self)@, extractor, service),
    {
        let (_, kind) = classify(self.path.as_str());
        self.plan = plan_strategies(kind, extractor, service);
        self.at = 0;
        self.enter();
    }

    /// Settles the job with what the strategy that was being tried gave.
    fn settle(&mut self, png: Option<Vec<u8>>)
        requires
            old(self).wf(),
            old(self)@.stage == StageView::Trying,
        ensures
            final(self).wf(),
            final(self)@ == settled(old(self)@, bytes_of(png)),
    {
        match wrap_thumbnail(self.path.as_str(), &png) {
            Some(uri) => {
                proof {
                    assert(uri@ == data_uri_text(mime_of(self.path@), base64_text(png.unwrap()@)));
                }
                self.stage = Stage::Finished(Ok(uri));
            },
            None => {
                assert(self.at < self.plan.len());
                self.at = self.at + 1;
                self.enter();
            },
        }
    }

    /// Takes the result of the work that `request` asked for.
    pub fn advance(&mut self, engine: &mut ThumbnailEngine, reply: ThumbnailReply)
        requires
            old(self).wf(),
        ensures
            final(self).wf(),
            advanced(old(self)@, *old(engine), reply, final(self)@, *final(engine)),
    {
        let request = self.request();
        match reply {
            ThumbnailReply::Exists(found) => {
                if request == ThumbnailRequest::CheckExists {
                    if !found {
                        self.stage = Stage::Finished(Err(ThumbnailError::NotFound));
                    } else {
                        let (_, kind) = classify(self.path.as_str());
                        match engine.extractor {
                            None => {
                                if kind == MediaKind::Video {
                                    self.stage = Stage::Locating;
                                } else {
                                    self.start(false, engine.platform.thumbnail_service());
                                }
                            },
                            Some(known) => {
                                self.start(known, engine.platform.thumbnail_service());
                            },
                        }
                    }
                }
            },
            ThumbnailReply::Located(found) => {
                if request == ThumbnailRequest::LocateExtractor {
                    engine.extractor = Some(found);
                    self.start(found, engine.platform.thumbnail_service());
                }
            },
            ThumbnailReply::Source(source) => {
                if request == ThumbnailRequest::ReadSource {
                    let png = match source {
                        Some(bytes) => native_thumbnail(self.path.as_str(), &bytes),
                        None => None,
                    };
                    self.settle(png);
                }
            },
            ThumbnailReply::Frame(run) => {
                if request == ThumbnailRequest::ExtractFrame {
                    self.settle(run.into_frame());
                }
            },
            ThumbnailReply::Rendered(image) => {
                if request == ThumbnailRequest::PlatformThumbnail {
                    let png = match image {
                        Some(image) => rendered_thumbnail(&image),
                        None => None,
                    };
                    self.settle(png);
                }
            },
        }
    }
}

} // verus!
