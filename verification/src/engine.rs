//! The inference engine, as far as it is called from here: `ocrs` is
//! started from the two models, is handed the image, and groups words into
//! lines. This module states what every call is owed and what every answer
//! can be relied on for. Finding the words and reading the lines runs the
//! models, whose answers `ocrs` takes on trust; those two calls are the
//! driver's, and their answers come in through the pipeline.

use crate::error::{PipelineError, PipelineErrorView, Stage};
use crate::picture::Image;
use vstd::prelude::*;
use vstd::string::*;

verus! {

#[verifier::external_type_specification]
#[verifier::external_body]
pub struct ExOcrEngine(ocrs::OcrEngine);

#[verifier::external_type_specification]
#[verifier::external_body]
pub struct ExOcrInput(ocrs::OcrInput);

#[verifier::external_type_specification]
#[verifier::external_body]
pub struct ExImageSource<'a>(ocrs::ImageSource<'a>);

#[verifier::external_type_specification]
#[verifier::external_body]
pub struct ExRotatedRect(rten_imageproc::RotatedRect);

#[verifier::external_type_specification]
#[verifier::external_body]
pub struct ExAnyhowError(anyhow::Error);

/// Why a buffer of pixels is no image to the engine.
#[derive(Clone, Copy, Debug, PartialEq, Eq, Structural)]
pub enum SourceError {
    /// The pixels have neither one, three nor four bytes each, or there is
    /// no pixel at all.
    UnsupportedChannelCount,
    /// The bytes are not a whole number of times the pixels.
    InvalidDataLength,
}

/// Why a buffer of `len` bytes is no image of the given size to the engine,
/// `None` where it is one.
pub open spec fn source_fault(len: nat, width: nat, height: nat) -> Option<SourceError> {
    let area = width * height;
    if area == 0 {
        Some(SourceError::UnsupportedChannelCount)
    } else if len % area != 0 {
        Some(SourceError::InvalidDataLength)
    } else if len / area == 1 || len / area == 3 || len / area == 4 {
        None
    } else {
        Some(SourceError::UnsupportedChannelCount)
    }
}

/// The word boxes of each line.
pub open spec fn boxes(lines: Seq<Vec<rten_imageproc::RotatedRect>>) -> Seq<
    Seq<rten_imageproc::RotatedRect>,
> {
    lines.map_values(|line: Vec<rten_imageproc::RotatedRect>| line@)
}

/// Whether every line has a word.
pub open spec fn no_line_empty(lines: Seq<Seq<rten_imageproc::RotatedRect>>) -> bool {
    forall|i: int| 0 <= i < lines.len() ==> (#[trigger] lines[i]).len() > 0
}

/// The number of words in all lines together.
pub open spec fn words_in(lines: Seq<Seq<rten_imageproc::RotatedRect>>) -> nat
    decreases lines.len(),
{
    if lines.len() == 0 {
        0
    } else {
        words_in(lines.drop_last()) + lines.last().len()
    }
}

/// Whether lines are a grouping of `words` words: no line is empty and
/// the lines hold that many words together.
pub open spec fn groups_words(lines: Seq<Seq<rten_imageproc::RotatedRect>>, words: nat) -> bool {
    no_line_empty(lines) && words_in(lines) == words
}

/// Why `ocrs` makes no engine of a detection and a recognition model, in
/// its own words; `None` where it makes one.
pub uninterp spec fn engine_fault(detection: rten::Model, recognition: rten::Model) -> Option<
    Seq<char>,
>;

/// The engine that `ocrs` makes of a detection and a recognition model.
pub uninterp spec fn engine_of(detection: rten::Model, recognition: rten::Model) -> ocrs::OcrEngine;

/// The text that an error of the engine displays.
pub uninterp spec fn failure_text(error: anyhow::Error) -> Seq<char>;

/// The pixels that an image source shows, with their width and height.
pub uninterp spec fn shown(source: ocrs::ImageSource) -> (Seq<u8>, nat, nat);

/// The input that `ocrs` prepares from pixels of a width and a height.
pub uninterp spec fn input_of(image: (Seq<u8>, nat, nat)) -> ocrs::OcrInput;

/// `ocrs::OcrEngine::new`, with both models and every other parameter at its
/// default: the engine, or why the models do not make one. The models alone
/// decide which, and which engine.
#[verifier::external_body]
fn engine_from(detection: rten::Model, recognition: rten::Model) -> (made: Result<
    ocrs::OcrEngine,
    anyhow::Error,
>)
    ensures
        match made {
            Ok(engine) => engine_fault(detection, recognition) is None && engine == engine_of(
                detection,
                recognition,
            ),
            Err(error) => engine_fault(detection, recognition) == Some(failure_text(error)),
        },
{
    ocrs::OcrEngine::new(
        ocrs::OcrEngineParams {
            detection_model: Some(detection),
            recognition_model: Some(recognition),
            ..Default::default()
        },
    )
}

/// `ocrs::ImageSource::from_bytes`: a view of the pixels as an image of one,
/// three or four bytes a pixel, which shows these pixels at this width and
/// height. It multiplies width and height as `u32`, so their product has to
/// fit.
#[verifier::external_body]
fn image_source<'a>(pixels: &'a [u8], width: u32, height: u32) -> (made: Result<
    ocrs::ImageSource<'a>,
    SourceError,
>)
    requires
        width * height <= u32::MAX,
    ensures
        match made {
            Ok(source) => source_fault(pixels@.len(), width as nat, height as nat) is None
                && shown(source) == (pixels@, width as nat, height as nat),
            Err(fault) => source_fault(pixels@.len(), width as nat, height as nat) == Some(fault),
        },
{
    match ocrs::ImageSource::from_bytes(pixels, (width, height)) {
        Ok(source) => Ok(source),
        Err(ocrs::ImageSourceError::UnsupportedChannelCount) => Err(
            SourceError::UnsupportedChannelCount,
        ),
        Err(ocrs::ImageSourceError::InvalidDataLength) => Err(SourceError::InvalidDataLength),
    }
}

/// `ocrs::OcrEngine::prepare_input`: the image as the engine's input. It
/// converts the pixels, has no way to fail, and makes no use of the engine:
/// what the source shows decides the input.
#[verifier::external_body]
fn prepare_input(engine: &ocrs::OcrEngine, source: ocrs::ImageSource) -> (prepared: Result<
    ocrs::OcrInput,
    anyhow::Error,
>)
    ensures
        prepared is Ok,
        prepared->Ok_0 == input_of(shown(source)),
{
    engine.prepare_input(source)
}

/// The farthest from the origin that a word's frame may reach for words to
/// be grouped: `ocrs` adds two coordinates as `i32`.
pub const FRAME_REACH: i32 = 1_000_000_000;

/// The tallest that a word may be for words to be grouped: `ocrs` takes
/// three times a height as `i32`.
pub const TALLEST: i32 = 700_000_000;

/// The widest that the page may be for words to be grouped: `ocrs` takes
/// three times a gap between two words as `i32`, and the gap, a difference
/// of two rounded numbers, can exceed the width by a little.
pub const WIDEST: i32 = 700_000_000;

/// The upright frame of a word in whole pixels: top, left, bottom, right.
pub uninterp spec fn frame_of(word: rten_imageproc::RotatedRect) -> (i32, i32, i32, i32);

/// The height of a word in whole pixels.
pub uninterp spec fn height_of(word: rten_imageproc::RotatedRect) -> i32;

/// The lines that `ocrs` groups words into: lines in reading order, and the
/// words of each line in reading order.
pub uninterp spec fn grouping_of(words: Seq<rten_imageproc::RotatedRect>) -> Seq<
    Seq<rten_imageproc::RotatedRect>,
>;

/// The smaller of two numbers.
pub open spec fn lower(a: int, b: int) -> int {
    if a <= b {
        a
    } else {
        b
    }
}

/// The larger of two numbers.
pub open spec fn upper(a: int, b: int) -> int {
    if a >= b {
        a
    } else {
        b
    }
}

/// Whether a word lies within reach and is not too tall.
pub open spec fn within_reach(word: rten_imageproc::RotatedRect) -> bool {
    let (top, left, bottom, right) = frame_of(word);
    &&& -FRAME_REACH <= top <= FRAME_REACH
    &&& -FRAME_REACH <= left <= FRAME_REACH
    &&& -FRAME_REACH <= bottom <= FRAME_REACH
    &&& -FRAME_REACH <= right <= FRAME_REACH
    &&& -TALLEST <= height_of(word) <= TALLEST
}

/// The page that words take up: the least and the greatest of their frames'
/// coordinates, as top, left, bottom, right. No words take up no page.
pub open spec fn page_of(words: Seq<rten_imageproc::RotatedRect>) -> (int, int, int, int)
    decreases words.len(),
{
    if words.len() == 0 {
        (0, 0, 0, 0)
    } else {
        let (top, left, bottom, right) = frame_of(words.last());
        let frame = (
            lower(top as int, bottom as int),
            lower(left as int, right as int),
            upper(top as int, bottom as int),
            upper(left as int, right as int),
        );
        if words.len() == 1 {
            frame
        } else {
            let rest = page_of(words.drop_last());
            (
                lower(rest.0, frame.0),
                lower(rest.1, frame.1),
                upper(rest.2, frame.2),
                upper(rest.3, frame.3),
            )
        }
    }
}

/// Whether a page is small enough: `ocrs` multiplies widths by heights
/// within it as `i32`, and the page may not be wider than [`WIDEST`].
pub open spec fn page_fits(page: (int, int, int, int)) -> bool {
    let width = page.3 - page.1;
    let height = page.2 - page.0;
    width * height <= i32::MAX && width <= WIDEST
}

/// Whether words can be grouped: each lies within reach and is not too
/// tall, and the page that they take up is small enough.
pub open spec fn groupable(words: Seq<rten_imageproc::RotatedRect>) -> bool {
    &&& forall|i: int| 0 <= i < words.len() ==> within_reach(#[trigger] words[i])
    &&& page_fits(page_of(words))
}

/// `rten_imageproc::BoundingRect::bounding_rect` of a word, made whole by
/// `RectF::integral_bounding_rect`: the frame that `ocrs` takes for the word
/// when it looks for the gaps between columns.
#[verifier::external_body]
fn word_frame(word: &rten_imageproc::RotatedRect) -> (frame: (i32, i32, i32, i32))
    ensures
        frame == frame_of(*word),
{
    let frame = rten_imageproc::BoundingRect::bounding_rect(word).integral_bounding_rect();
    (frame.top(), frame.left(), frame.bottom(), frame.right())
}

/// `rten_imageproc::RotatedRect::height`, as the whole number that `as`
/// makes of it: out of range it is the nearest end of the range.
#[verifier::external_body]
fn word_height(word: &rten_imageproc::RotatedRect) -> (height: i32)
    ensures
        height == height_of(*word),
{
    word.height() as i32
}

/// `ocrs::OcrEngine::find_text_lines`: the words grouped into lines, lines
/// and the words in them in reading order. The words alone decide the
/// lines. Every word is moved into exactly one line, and a line is only made
/// for a word. Its `i32` arithmetic adds coordinates of frames, multiplies
/// widths by heights within the page, and takes three times a gap and a
/// height; words for which one of these overflows are left out.
#[verifier::external_body]
fn find_text_lines(
    engine: &ocrs::OcrEngine,
    input: &ocrs::OcrInput,
    words: &Vec<rten_imageproc::RotatedRect>,
) -> (lines: Vec<Vec<rten_imageproc::RotatedRect>>)
    requires
        groupable(words@),
    ensures
        boxes(lines@) == grouping_of(words@),
        no_line_empty(boxes(lines@)),
        boxes(lines@).flatten().to_multiset() == words@.to_multiset(),
{
    engine.find_text_lines(input, words)
}

/// `Display` of `anyhow::Error`.
#[verifier::external_body]
fn describe(error: &anyhow::Error) -> (text: String)
    ensures
        text@ == failure_text(*error),
{
    error.to_string()
}

/// The error of a stage that the engine failed at, with the engine's reason.
fn failed(stage: Stage, error: &anyhow::Error) -> (failure: PipelineError)
    ensures
        failure@ == (PipelineErrorView::Inference { stage, detail: failure_text(*error) }),
{
    PipelineError::Inference { stage, detail: describe(error) }
}

/// Why no engine can be started from two models, `None` where one can: the
/// failure is at `Stage::Engine`, with the reason that `ocrs` gives.
pub open spec fn engine_failure(detection: rten::Model, recognition: rten::Model) -> Option<
    PipelineErrorView,
> {
    match engine_fault(detection, recognition) {
        Some(detail) => Some(PipelineErrorView::Inference { stage: Stage::Engine, detail }),
        None => None,
    }
}

/// Makes the engine from the two models.
///
/// Succeeds exactly where `ocrs` makes an engine of them, with that engine.
/// Fails at `Stage::Engine` otherwise, with the reason that `ocrs` gives.
pub fn start_engine(detection: rten::Model, recognition: rten::Model) -> (started: Result<
    ocrs::OcrEngine,
    PipelineError,
>)
    ensures
        match started {
            Ok(engine) => engine_failure(detection, recognition) is None && engine == engine_of(
                detection,
                recognition,
            ),
            Err(failure) => engine_failure(detection, recognition) == Some(failure@),
        },
{
    match engine_from(detection, recognition) {
        Ok(engine) => Ok(engine),
        Err(error) => Err(failed(Stage::Engine, &error)),
    }
}

/// Whether an image of the given size can be handed to the engine: it has a
/// pixel, and no more pixels than `u32` counts.
pub open spec fn preparable(width: nat, height: nat) -> bool {
    0 < width * height <= u32::MAX
}

/// Why an image of the given size cannot be handed to the engine.
pub open spec fn unpreparable_detail(width: nat, height: nat) -> Seq<char> {
    if width * height == 0 {
        "the image has no pixels"@
    } else {
        "the image has too many pixels"@
    }
}

/// The input that `ocrs` prepares from an image.
pub open spec fn prepared_from(image: crate::picture::ImageView) -> ocrs::OcrInput {
    input_of((image.pixels, image.width, image.height))
}

/// Turns an image into the engine's input.
///
/// Succeeds exactly for an image that has a pixel and no more pixels than
/// `u32` counts, with the input that `ocrs` prepares from the image's
/// pixels; any other fails at `Stage::Prepare`.
pub fn prepare(engine: &ocrs::OcrEngine, image: &Image) -> (prepared: Result<
    ocrs::OcrInput,
    PipelineError,
>)
    ensures
        match prepared {
            Ok(input) => preparable(image@.width, image@.height) && input == prepared_from(
                image@,
            ),
            Err(failure) => !preparable(image@.width, image@.height) && failure@
                == (PipelineErrorView::Inference {
                stage: Stage::Prepare,
                detail: unpreparable_detail(image@.width, image@.height),
            }),
        },
{
    let width = image.width();
    let height = image.height();
    let pixels = image.pixels();
    assert(0 <= width * height <= 0xffff_ffff * 0xffff_ffff) by (nonlinear_arith)
        requires
            0 <= width <= 0xffff_ffff,
            0 <= height <= 0xffff_ffff,
    ;
    let area: u64 = (width as u64) * (height as u64);
    if area == 0 {
        return Err(
            PipelineError::Inference {
                stage: Stage::Prepare,
                detail: String::from_str("the image has no pixels"),
            },
        );
    }
    if area > u32::MAX as u64 {
        return Err(
            PipelineError::Inference {
                stage: Stage::Prepare,
                detail: String::from_str("the image has too many pixels"),
            },
        );
    }
    proof {
        let len = pixels@.len() as int;
        let a = area as int;
        assert(len == 3 * a) by (nonlinear_arith)
            requires
                len == 3 * image@.width * image@.height,
                a == image@.width * image@.height,
        ;
        vstd::arithmetic::div_mod::lemma_mod_multiples_basic(3, a);
        vstd::arithmetic::div_mod::lemma_div_by_multiple(3, a);
    }
    match image_source(pixels.as_slice(), width, height) {
        Ok(source) => match prepare_input(engine, source) {
            Ok(input) => Ok(input),
            Err(error) => Err(failed(Stage::Prepare, &error)),
        },
        // Not reached: the pixels fill an image that has a pixel.
        Err(_) => Err(
            PipelineError::Inference {
                stage: Stage::Prepare,
                detail: String::from_str("the image has no pixels"),
            },
        ),
    }
}

/// Whether words can be grouped: each lies within reach and is not too
/// tall, and the page that they take up is small enough.
pub fn is_groupable(words: &Vec<rten_imageproc::RotatedRect>) -> (ok: bool)
    ensures
        ok == groupable(words@),
{
    let mut page: (i64, i64, i64, i64) = (0, 0, 0, 0);
    let mut i: usize = 0;
    while i < words.len()
        invariant
            i <= words.len(),
            forall|k: int| 0 <= k < i ==> within_reach(#[trigger] words@[k]),
            (page.0 as int, page.1 as int, page.2 as int, page.3 as int) == page_of(
                words@.take(i as int),
            ),
            -FRAME_REACH <= page.0 <= page.2 <= FRAME_REACH,
            -FRAME_REACH <= page.1 <= page.3 <= FRAME_REACH,
        decreases words.len() - i,
    {
        let (top, left, bottom, right) = word_frame(&words[i]);
        let height = word_height(&words[i]);
        let near = -FRAME_REACH <= top && top <= FRAME_REACH && -FRAME_REACH <= left && left
            <= FRAME_REACH && -FRAME_REACH <= bottom && bottom <= FRAME_REACH && -FRAME_REACH
            <= right && right <= FRAME_REACH && -TALLEST <= height && height <= TALLEST;
        if !near {
            assert(!within_reach(words@[i as int]));
            return false;
        }
        let frame: (i64, i64, i64, i64) = (
            if top <= bottom { top as i64 } else { bottom as i64 },
            if left <= right { left as i64 } else { right as i64 },
            if top >= bottom { top as i64 } else { bottom as i64 },
            if left >= right { left as i64 } else { right as i64 },
        );
        proof {
            assert(words@.take(i + 1).drop_last() =~= words@.take(i as int));
            assert(words@.take(i + 1).last() == words@[i as int]);
        }
        page = if i == 0 {
            frame
        } else {
            (
                if page.0 <= frame.0 { page.0 } else { frame.0 },
                if page.1 <= frame.1 { page.1 } else { frame.1 },
                if page.2 >= frame.2 { page.2 } else { frame.2 },
                if page.3 >= frame.3 { page.3 } else { frame.3 },
            )
        };
        i += 1;
    }
    assert(words@.take(i as int) =~= words@);
    let width: i64 = page.3 - page.1;
    let height: i64 = page.2 - page.0;
    assert(0 <= width * height <= 2_000_000_000 * 2_000_000_000) by (nonlinear_arith)
        requires
            0 <= width <= 2_000_000_000,
            0 <= height <= 2_000_000_000,
    ;
    width * height <= 0x7fff_ffff && width <= 700_000_000
}

/// Groups words that can be grouped into lines in reading order: the lines
/// are the ones that `ocrs` makes of these words. Every word goes into one
/// line, so there are at most as many lines as words.
pub fn group_lines(
    engine: &ocrs::OcrEngine,
    input: &ocrs::OcrInput,
    words: &Vec<rten_imageproc::RotatedRect>,
) -> (lines: Vec<Vec<rten_imageproc::RotatedRect>>)
    requires
        groupable(words@),
    ensures
        boxes(lines@) == grouping_of(words@),
        groups_words(boxes(lines@), words@.len()),
        boxes(lines@).flatten().to_multiset() == words@.to_multiset(),
        lines@.len() <= words@.len(),
{
    let lines = find_text_lines(engine, input, words);
    proof {
        lemma_words_in_is_flat_len(boxes(lines@));
        vstd::seq_lib::to_multiset_len(boxes(lines@).flatten());
        vstd::seq_lib::to_multiset_len(words@);
        lemma_no_more_lines_than_words(boxes(lines@));
    }
    lines
}

/// Groups words into lines in reading order, or gives `None` where they
/// cannot be grouped: a word lies out of reach or is too tall, or the page
/// that the words take up is too large.
pub fn try_group_lines(
    engine: &ocrs::OcrEngine,
    input: &ocrs::OcrInput,
    words: &Vec<rten_imageproc::RotatedRect>,
) -> (grouped: Option<Vec<Vec<rten_imageproc::RotatedRect>>>)
    ensures
        match grouped {
            Some(lines) => {
                &&& groupable(words@)
                &&& boxes(lines@) == grouping_of(words@)
                &&& groups_words(boxes(lines@), words@.len())
                &&& boxes(lines@).flatten().to_multiset() == words@.to_multiset()
                &&& lines@.len() <= words@.len()
            },
            None => !groupable(words@),
        },
{
    if is_groupable(words) {
        Some(group_lines(engine, input, words))
    } else {
        None
    }
}

/// Whether lines are a grouping of `words` words.
pub fn is_grouping(lines: &Vec<Vec<rten_imageproc::RotatedRect>>, words: usize) -> (ok: bool)
    ensures
        ok == groups_words(boxes(lines@), words as nat),
{
    let mut total: usize = 0;
    let mut i: usize = 0;
    while i < lines.len()
        invariant
            i <= lines.len(),
            total <= words,
            total == words_in(boxes(lines@).take(i as int)),
            no_line_empty(boxes(lines@).take(i as int)),
        decreases lines.len() - i,
    {
        let ghost all = boxes(lines@);
        assert(all.take(i + 1).drop_last() =~= all.take(i as int));
        let n = lines[i].len();
        if n == 0 {
            assert(all[i as int].len() == 0);
            return false;
        }
        if n > words - total {
            proof {
                lemma_words_in_grows(all, i + 1);
            }
            return false;
        }
        total += n;
        i += 1;
    }
    assert(boxes(lines@).take(i as int) =~= boxes(lines@));
    total == words
}

/// The words of a prefix of the lines are no more than the words of all.
pub proof fn lemma_words_in_grows(lines: Seq<Seq<rten_imageproc::RotatedRect>>, n: int)
    requires
        0 <= n <= lines.len(),
    ensures
        words_in(lines.take(n)) <= words_in(lines),
    decreases lines.len(),
{
    if n == lines.len() {
        assert(lines.take(n) =~= lines);
    } else {
        lemma_words_in_grows(lines.drop_last(), n);
        assert(lines.drop_last().take(n) =~= lines.take(n));
    }
}

/// The lines hold as many words together as the lines laid end to end.
pub proof fn lemma_words_in_is_flat_len(lines: Seq<Seq<rten_imageproc::RotatedRect>>)
    ensures
        words_in(lines) == lines.flatten().len(),
    decreases lines.len(),
{
    lines.lemma_flatten_and_flatten_alt_are_equivalent();
    if lines.len() > 0 {
        lemma_words_in_is_flat_len(lines.drop_last());
        lines.drop_last().lemma_flatten_and_flatten_alt_are_equivalent();
    }
}

/// Where no line is empty there are no more lines than words.
pub proof fn lemma_no_more_lines_than_words(lines: Seq<Seq<rten_imageproc::RotatedRect>>)
    requires
        no_line_empty(lines),
    ensures
        lines.len() <= words_in(lines),
    decreases lines.len(),
{
    if lines.len() > 0 {
        lemma_no_more_lines_than_words(lines.drop_last());
    }
}

} // verus!
