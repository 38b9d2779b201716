//! The run as a state machine: models, image, input, words, lines, text,
//! output, one after the other. A stage that fails ends the run; nothing is
//! retried and a failed run has no output.
//!
//! The machine decides; the driver reads and parses the files and runs the
//! models. What the driver owes a step is told by [`Pipeline::need`] and
//! handed in as a [`Supply`].

use crate::engine::{
    boxes, engine_failure, engine_of, groupable, grouping_of, groups_words, is_grouping,
    lemma_no_more_lines_than_words, prepare, preparable, prepared_from, start_engine,
    try_group_lines, unpreparable_detail,
};
use crate::error::{ModelRole, PipelineError, PipelineErrorView, Stage};
use crate::filter::{
    attribute, attributed, filter_lines, filtered, lemma_filtered_is_no_longer, optional_views,
    render, text_views, texts, views, RecognizedLine,
};
use crate::models::{load_model, model_outcome, ModelRead};
use crate::picture::{image_outcome, load_image, Image, ImageRead};
use vstd::prelude::*;
use vstd::string::*;

verus! {

/// What the driver hands to the next step.
pub enum Supply {
    /// Nothing: the step needs nothing.
    Nothing,
    /// What came of reading and parsing the two model files.
    ModelFiles { detection: ModelRead, recognition: ModelRead },
    /// What came of reading and decoding the image file at `path`.
    ImageFile { path: String, read: ImageRead },
    /// The engine's answer to the search for words: their boxes, or its
    /// reason for failing.
    Words(Result<Vec<rten_imageproc::RotatedRect>, String>),
    /// The engine's answer to the reading of the lines: the text of each
    /// line, `None` where it found none, or its reason for failing.
    Texts(Result<Vec<Option<String>>, String>),
}

/// What a step needs of the driver.
#[derive(Clone, Copy, Debug, PartialEq, Eq, Structural)]
pub enum Need {
    /// Nothing.
    Nothing,
    /// The two model files.
    ModelFiles,
    /// The image file.
    ImageFile,
    /// The words that the engine finds in the run's input.
    Words,
    /// The texts that the engine reads in the run's lines.
    Texts,
}

/// The failure of a stage whose answer the driver owed and did not give.
pub open spec fn unanswered(stage: Stage) -> PipelineErrorView {
    PipelineErrorView::Inference { stage, detail: "no answer was given"@ }
}

/// A run, at one of its stages.
pub enum Pipeline {
    /// Nothing has been done.
    Start,
    /// Both models are loaded.
    ModelsLoaded { detection: rten::Model, recognition: rten::Model },
    /// The engine is started and the image is decoded.
    ImageLoaded { engine: ocrs::OcrEngine, image: Image },
    /// The image has been turned into the engine's input.
    InputPrepared { engine: ocrs::OcrEngine, input: ocrs::OcrInput },
    /// The words have been located.
    WordsDetected {
        engine: ocrs::OcrEngine,
        input: ocrs::OcrInput,
        words: Vec<rten_imageproc::RotatedRect>,
    },
    /// The words have been grouped into lines.
    LinesGrouped {
        engine: ocrs::OcrEngine,
        input: ocrs::OcrInput,
        lines: Vec<Vec<rten_imageproc::RotatedRect>>,
        word_count: usize,
    },
    /// The lines have been read: one entry for each line group.
    TextRecognized { recognized: Vec<Option<RecognizedLine>>, word_count: usize },
    /// The run is over: the lines that are left after filtering.
    Done { kept: Vec<RecognizedLine>, line_count: usize, word_count: usize },
    /// The run is over: the error that ended it.
    Failed { error: PipelineError },
}

impl Pipeline {
    /// How many stages a run has behind it.
    pub open spec fn rank(self) -> nat {
        match self {
            Pipeline::Start => 0,
            Pipeline::ModelsLoaded { .. } => 1,
            Pipeline::ImageLoaded { .. } => 2,
            Pipeline::InputPrepared { .. } => 3,
            Pipeline::WordsDetected { .. } => 4,
            Pipeline::LinesGrouped { .. } => 5,
            Pipeline::TextRecognized { .. } => 6,
            Pipeline::Done { .. } => 7,
            Pipeline::Failed { .. } => 7,
        }
    }

    /// Whether the run is over.
    pub open spec fn is_over(self) -> bool {
        self is Done || self is Failed
    }

    /// Whether the counts that a run carries agree with what it holds: the
    /// lines are a grouping of the words, there is one recognition entry for
    /// each line group and it names that group, and no more lines are left
    /// than there were line groups, nor more line groups than words.
    pub open spec fn consistent(self) -> bool {
        match self {
            Pipeline::LinesGrouped { lines, word_count, .. } => groups_words(
                boxes(lines@),
                word_count as nat,
            ),
            Pipeline::TextRecognized { recognized, word_count } => {
                &&& recognized@.len() <= word_count
                &&& forall|i: int|
                    0 <= i < recognized@.len() ==> (#[trigger] recognized@[i] matches Some(line)
                        ==> line.source == i)
            },
            Pipeline::Done { kept, line_count, word_count } => kept@.len() <= line_count
                <= word_count,
            _ => true,
        }
    }

    /// What leaves `Start`: both models as they were parsed, or the error of
    /// the first that was not, the detection model's before the recognition
    /// model's.
    pub open spec fn left_start(
        detection: ModelRead,
        recognition: ModelRead,
        next: Pipeline,
    ) -> bool {
        match model_outcome(ModelRole::Detection, detection) {
            Err(failure) => next matches Pipeline::Failed { error } && error@ == failure,
            Ok(detection) => match model_outcome(ModelRole::Recognition, recognition) {
                Err(failure) => next matches Pipeline::Failed { error } && error@ == failure,
                Ok(recognition) => next == (Pipeline::ModelsLoaded { detection, recognition }),
            },
        }
    }

    /// What leaves `ModelsLoaded`: the engine is started first; where it
    /// starts, the image is the one that was decoded, or the run fails with
    /// the reason that there is none.
    pub open spec fn left_models_loaded(
        detection: rten::Model,
        recognition: rten::Model,
        path: Seq<char>,
        read: ImageRead,
        next: Pipeline,
    ) -> bool {
        match engine_failure(detection, recognition) {
            Some(failure) => next matches Pipeline::Failed { error } && error@ == failure,
            None => match image_outcome(path, read) {
                Err(failure) => next matches Pipeline::Failed { error } && error@ == failure,
                Ok(decoded) => {
                    &&& next matches Pipeline::ImageLoaded { engine, image }
                    &&& engine == engine_of(detection, recognition)
                    &&& image@ == decoded
                    &&& image@.well_formed()
                },
            },
        }
    }

    /// What leaves `LinesGrouped` where there are lines to read: the texts
    /// that the engine read, each with the position of its line, or the
    /// failure.
    pub open spec fn left_lines_grouped(
        line_count: nat,
        word_count: usize,
        supply: Supply,
        next: Pipeline,
    ) -> bool {
        match supply {
            Supply::Texts(Ok(found)) => if found@.len() == line_count {
                &&& next matches Pipeline::TextRecognized { recognized, word_count: counted }
                &&& optional_views(recognized@) == attributed(text_views(found@))
                &&& counted == word_count
            } else {
                next matches Pipeline::Failed { error } && error@
                    == (PipelineErrorView::Inference {
                    stage: Stage::Recognize,
                    detail: "the answer does not match the lines"@,
                })
            },
            Supply::Texts(Err(detail)) => next matches Pipeline::Failed { error } && error@
                == (PipelineErrorView::Inference { stage: Stage::Recognize, detail: detail@ }),
            _ => next matches Pipeline::Failed { error } && error@ == unanswered(Stage::Recognize),
        }
    }

    /// What one step makes of a run. A run that is over stays as it is. Any
    /// other moves on by one stage or fails; which of the two, and with what,
    /// is stated for every stage.
    pub open spec fn steps_to(self, supply: Supply, min_chars: nat, next: Pipeline) -> bool {
        match self {
            Pipeline::Start => match supply {
                Supply::ModelFiles { detection, recognition } => Self::left_start(
                    detection,
                    recognition,
                    next,
                ),
                _ => Self::left_start(None, None, next),
            },
            Pipeline::ModelsLoaded { detection, recognition } => match supply {
                Supply::ImageFile { path, read } => Self::left_models_loaded(
                    detection,
                    recognition,
                    path@,
                    read,
                    next,
                ),
                _ => Self::left_models_loaded(detection, recognition, Seq::empty(), None, next),
            },
            Pipeline::ImageLoaded { engine, image } => {
                if preparable(image@.width, image@.height) {
                    next == (Pipeline::InputPrepared { engine, input: prepared_from(image@) })
                } else {
                    next matches Pipeline::Failed { error } && error@
                        == (PipelineErrorView::Inference {
                        stage: Stage::Prepare,
                        detail: unpreparable_detail(image@.width, image@.height),
                    })
                }
            },
            Pipeline::InputPrepared { engine, input } => match supply {
                Supply::Words(Ok(words)) => next == (Pipeline::WordsDetected {
                    engine,
                    input,
                    words,
                }),
                Supply::Words(Err(detail)) => next matches Pipeline::Failed { error } && error@
                    == (PipelineErrorView::Inference { stage: Stage::Detect, detail: detail@ }),
                _ => next matches Pipeline::Failed { error } && error@ == unanswered(
                    Stage::Detect,
                ),
            },
            Pipeline::WordsDetected { engine, input, words } => {
                if groupable(words@) {
                    &&& next == (Pipeline::LinesGrouped {
                        engine,
                        input,
                        lines: next->lines,
                        word_count: words.len(),
                    })
                    &&& boxes(next->lines@) == grouping_of(words@)
                    &&& groups_words(boxes(next->lines@), words@.len())
                    &&& boxes(next->lines@).flatten().to_multiset() == words@.to_multiset()
                } else {
                    next matches Pipeline::Failed { error } && error@
                        == (PipelineErrorView::Inference {
                        stage: Stage::Group,
                        detail: "the words take up too large a page"@,
                    })
                }
            },
            Pipeline::LinesGrouped { lines, word_count, .. } => {
                if lines@.len() == 0 {
                    &&& next matches Pipeline::TextRecognized { recognized, word_count: counted }
                    &&& recognized@.len() == 0
                    &&& counted == word_count
                } else {
                    Self::left_lines_grouped(lines@.len(), word_count, supply, next)
                }
            },
            Pipeline::TextRecognized { recognized, word_count } => {
                &&& next matches Pipeline::Done { kept, line_count, word_count: counted }
                &&& views(kept@) == filtered(optional_views(recognized@), min_chars)
                &&& line_count == recognized@.len()
                &&& counted == word_count
            },
            Pipeline::Done { .. } => next == self,
            Pipeline::Failed { .. } => next == self,
        }
    }

    /// A run that has done nothing yet.
    pub fn new() -> (run: Pipeline)
        ensures
            run is Start,
    {
        Pipeline::Start
    }

    /// Whether the run is over: it is done or it has failed.
    pub fn is_terminal(&self) -> (over: bool)
        ensures
            over == self.is_over(),
    {
        match self {
            Pipeline::Done { .. } => true,
            Pipeline::Failed { .. } => true,
            _ => false,
        }
    }

    /// What the driver owes the next step: files to read, or an answer of
    /// the engine. No answer is owed for lines where there are none.
    pub fn need(&self) -> (need: Need)
        ensures
            need == match self {
                Pipeline::Start => Need::ModelFiles,
                Pipeline::ModelsLoaded { .. } => Need::ImageFile,
                Pipeline::InputPrepared { .. } => Need::Words,
                Pipeline::LinesGrouped { lines, .. } => if lines@.len() == 0 {
                    Need::Nothing
                } else {
                    Need::Texts
                },
                _ => Need::Nothing,
            },
    {
        match self {
            Pipeline::Start => Need::ModelFiles,
            Pipeline::ModelsLoaded { .. } => Need::ImageFile,
            Pipeline::InputPrepared { .. } => Need::Words,
            Pipeline::LinesGrouped { lines, .. } => if lines.len() == 0 {
                Need::Nothing
            } else {
                Need::Texts
            },
            _ => Need::Nothing,
        }
    }

    /// The progress message to show before the next step, if it has one.
    pub fn announcement(&self) -> (message: Option<&'static str>)
        ensures
            match self {
                Pipeline::Start => message matches Some(text) && text@ == "Loading models.."@,
                Pipeline::ModelsLoaded { .. } => message matches Some(text) && text@
                    == "Starting engine.."@,
                Pipeline::InputPrepared { .. } => message matches Some(text) && text@
                    == "Detecting words.."@,
                Pipeline::WordsDetected { .. } => message matches Some(text) && text@
                    == "Finding text lines.."@,
                Pipeline::LinesGrouped { .. } => message matches Some(text) && text@
                    == "Recognizing text.."@,
                _ => message is None,
            },
    {
        match self {
            Pipeline::Start => Some("Loading models.."),
            Pipeline::ModelsLoaded { .. } => Some("Starting engine.."),
            Pipeline::InputPrepared { .. } => Some("Detecting words.."),
            Pipeline::WordsDetected { .. } => Some("Finding text lines.."),
            Pipeline::LinesGrouped { .. } => Some("Recognizing text.."),
            _ => None,
        }
    }

    /// The output of a run that is done, one record for each line that is
    /// left; `None` for any other run.
    pub fn output(&self) -> (records: Option<Vec<String>>)
        ensures
            match self {
                Pipeline::Done { kept, .. } => records matches Some(found) && found@.map_values(
                    |s: String| s@,
                ) == texts(views(kept@)),
                _ => records is None,
            },
    {
        match self {
            Pipeline::Done { kept, .. } => Some(render(kept)),
            _ => None,
        }
    }

    /// The error of a run that has failed; `None` for any other run.
    pub fn error(&self) -> (error: Option<&PipelineError>)
        ensures
            match self {
                Pipeline::Failed { error: ended } => error == Some(ended),
                _ => error is None,
            },
    {
        match self {
            Pipeline::Failed { error } => Some(error),
            _ => None,
        }
    }

    /// The run after both models were loaded, or were not: the detection
    /// model's error comes before the recognition model's.
    pub fn after_models(
        detection: Result<rten::Model, PipelineError>,
        recognition: Result<rten::Model, PipelineError>,
    ) -> (next: Pipeline)
        ensures
            next == match (detection, recognition) {
                (Err(error), _) => Pipeline::Failed { error },
                (Ok(_), Err(error)) => Pipeline::Failed { error },
                (Ok(detection), Ok(recognition)) => Pipeline::ModelsLoaded {
                    detection,
                    recognition,
                },
            },
    {
        match detection {
            Err(error) => Pipeline::Failed { error },
            Ok(detection) => match recognition {
                Err(error) => Pipeline::Failed { error },
                Ok(recognition) => Pipeline::ModelsLoaded { detection, recognition },
            },
        }
    }

    /// The run after the image was decoded, or was not.
    pub fn after_image(engine: ocrs::OcrEngine, image: Result<Image, PipelineError>) -> (next:
        Pipeline)
        ensures
            next == match image {
                Ok(image) => Pipeline::ImageLoaded { engine, image },
                Err(error) => Pipeline::Failed { error },
            },
    {
        match image {
            Ok(image) => Pipeline::ImageLoaded { engine, image },
            Err(error) => Pipeline::Failed { error },
        }
    }

    /// The run after the input was prepared, or was not.
    pub fn after_prepare(
        engine: ocrs::OcrEngine,
        prepared: Result<ocrs::OcrInput, PipelineError>,
    ) -> (next: Pipeline)
        ensures
            next == match prepared {
                Ok(input) => Pipeline::InputPrepared { engine, input },
                Err(error) => Pipeline::Failed { error },
            },
    {
        match prepared {
            Ok(input) => Pipeline::InputPrepared { engine, input },
            Err(error) => Pipeline::Failed { error },
        }
    }

    /// The run after the words were located, or were not. No word at all is
    /// no failure.
    pub fn after_detect(
        engine: ocrs::OcrEngine,
        input: ocrs::OcrInput,
        found: Result<Vec<rten_imageproc::RotatedRect>, PipelineError>,
    ) -> (next: Pipeline)
        ensures
            next == match found {
                Ok(words) => Pipeline::WordsDetected { engine, input, words },
                Err(error) => Pipeline::Failed { error },
            },
    {
        match found {
            Ok(words) => Pipeline::WordsDetected { engine, input, words },
            Err(error) => Pipeline::Failed { error },
        }
    }

    /// The run after `words` words were grouped into lines. Lines that are no
    /// grouping of that many words fail the run at `Stage::Group`.
    pub fn after_group(
        engine: ocrs::OcrEngine,
        input: ocrs::OcrInput,
        words: usize,
        lines: Vec<Vec<rten_imageproc::RotatedRect>>,
    ) -> (next: Pipeline)
        ensures
            groups_words(boxes(lines@), words as nat) ==> next == (Pipeline::LinesGrouped {
                engine,
                input,
                lines,
                word_count: words,
            }),
            !groups_words(boxes(lines@), words as nat) ==> (next matches Pipeline::Failed {
                error,
            } && error@ == PipelineErrorView::Inference {
                stage: Stage::Group,
                detail: "the lines do not hold the words"@,
            }),
            next.consistent(),
    {
        if is_grouping(&lines, words) {
            Pipeline::LinesGrouped { engine, input, lines, word_count: words }
        } else {
            Pipeline::Failed {
                error: PipelineError::Inference {
                    stage: Stage::Group,
                    detail: String::from_str("the lines do not hold the words"),
                },
            }
        }
    }

    /// The run after `groups` line groups, made of `words` words, were read,
    /// or were not. Each text is given the position of its line group. An
    /// answer that has not one entry for each line group fails the run at
    /// `Stage::Recognize`.
    pub fn after_recognize(
        groups: usize,
        words: usize,
        read: Result<Vec<Option<String>>, PipelineError>,
    ) -> (next: Pipeline)
        ensures
            match read {
                Ok(found) => if found@.len() == groups {
                    &&& next matches Pipeline::TextRecognized { recognized, word_count: counted }
                    &&& optional_views(recognized@) == attributed(text_views(found@))
                    &&& counted == words
                } else {
                    next matches Pipeline::Failed { error } && error@
                        == (PipelineErrorView::Inference {
                        stage: Stage::Recognize,
                        detail: "the answer does not match the lines"@,
                    })
                },
                Err(error) => next == Pipeline::Failed { error },
            },
            groups <= words ==> next.consistent(),
    {
        match read {
            Ok(found) => {
                if found.len() == groups {
                    let recognized = attribute(found);
                    proof {
                        let shown = optional_views(recognized@);
                        assert forall|i: int| 0 <= i < recognized@.len() implies (
                        #[trigger] recognized@[i] matches Some(line) ==> line.source == i) by {
                            assert(shown[i] == attributed(text_views(found@))[i]);
                        }
                    }
                    Pipeline::TextRecognized { recognized, word_count: words }
                } else {
                    Pipeline::Failed {
                        error: PipelineError::Inference {
                            stage: Stage::Recognize,
                            detail: String::from_str("the answer does not match the lines"),
                        },
                    }
                }
            },
            Err(error) => Pipeline::Failed { error },
        }
    }

    /// The run after filtering: absent lines are dropped, then lines whose
    /// text has `min_chars` characters or fewer. What is left keeps its order.
    pub fn after_filter(
        recognized: &Vec<Option<RecognizedLine>>,
        words: usize,
        min_chars: usize,
    ) -> (next: Pipeline)
        ensures
            next matches Pipeline::Done { kept, line_count, word_count } && views(kept@)
                == filtered(optional_views(recognized@), min_chars as nat) && line_count
                == recognized@.len() && word_count == words,
            recognized@.len() <= words ==> next.consistent(),
    {
        let kept = filter_lines(recognized, min_chars);
        Pipeline::Done { kept, line_count: recognized.len(), word_count: words }
    }

    /// The failure of a stage whose answer the driver owed and did not give.
    fn no_answer(stage: Stage) -> (error: PipelineError)
        ensures
            error@ == unanswered(stage),
    {
        PipelineError::Inference { stage, detail: String::from_str("no answer was given") }
    }

    /// Takes the run one stage further.
    ///
    /// A run that is over stays as it is. Any other moves on to the next
    /// stage or fails. `supply` holds what the stage needs of the driver,
    /// see [`Pipeline::need`]; a file that is not supplied counts as one that
    /// could not be read, and an answer that is not given fails the stage.
    /// `min_chars` is the length that a line's text must exceed to be in the
    /// output.
    pub fn advance(self, supply: Supply, min_chars: usize) -> (next: Pipeline)
        ensures
            self.steps_to(supply, min_chars as nat, next),
            self.is_over() ==> next == self,
            !self.is_over() ==> next is Failed || next.rank() == self.rank() + 1,
            self.consistent() ==> next.consistent(),
    {
        match self {
            Pipeline::Start => {
                let (detection, recognition) = match supply {
                    Supply::ModelFiles { detection, recognition } => (detection, recognition),
                    _ => (None, None),
                };
                let detection = load_model(ModelRole::Detection, detection);
                let recognition = load_model(ModelRole::Recognition, recognition);
                Pipeline::after_models(detection, recognition)
            },
            Pipeline::ModelsLoaded { detection, recognition } => {
                match start_engine(detection, recognition) {
                    Ok(engine) => {
                        let image = match supply {
                            Supply::ImageFile { path, read } => load_image(path.as_str(), read),
                            _ => load_image("", None),
                        };
                        proof {
                            reveal_strlit("");
                            assert(""@ =~= Seq::<char>::empty());
                        }
                        Pipeline::after_image(engine, image)
                    },
                    Err(error) => Pipeline::Failed { error },
                }
            },
            Pipeline::ImageLoaded { engine, image } => {
                let prepared = prepare(&engine, &image);
                Pipeline::after_prepare(engine, prepared)
            },
            Pipeline::InputPrepared { engine, input } => {
                let found = match supply {
                    Supply::Words(Ok(words)) => Ok(words),
                    Supply::Words(Err(detail)) => Err(
                        PipelineError::Inference { stage: Stage::Detect, detail },
                    ),
                    _ => Err(Self::no_answer(Stage::Detect)),
                };
                Pipeline::after_detect(engine, input, found)
            },
            Pipeline::WordsDetected { engine, input, words } => {
                match try_group_lines(&engine, &input, &words) {
                    Some(lines) => Pipeline::after_group(engine, input, words.len(), lines),
                    None => Pipeline::Failed {
                        error: PipelineError::Inference {
                            stage: Stage::Group,
                            detail: String::from_str("the words take up too large a page"),
                        },
                    },
                }
            },
            Pipeline::LinesGrouped { engine, input, lines, word_count } => {
                let read = if lines.len() == 0 {
                    Ok(Vec::new())
                } else {
                    match supply {
                        Supply::Texts(Ok(found)) => Ok(found),
                        Supply::Texts(Err(detail)) => Err(
                            PipelineError::Inference { stage: Stage::Recognize, detail },
                        ),
                        _ => Err(Self::no_answer(Stage::Recognize)),
                    }
                };
                proof {
                    if self.consistent() {
                        lemma_no_more_lines_than_words(boxes(lines@));
                    }
                }
                let next = Pipeline::after_recognize(lines.len(), word_count, read);
                proof {
                    if next is TextRecognized {
                        let recognized = next->recognized;
                        assert(recognized@.len() == optional_views(recognized@).len());
                    }
                }
                next
            },
            Pipeline::TextRecognized { recognized, word_count } => Pipeline::after_filter(
                &recognized,
                word_count,
                min_chars,
            ),
            Pipeline::Done { kept, line_count, word_count } => Pipeline::Done {
                kept,
                line_count,
                word_count,
            },
            Pipeline::Failed { error } => Pipeline::Failed { error },
        }
    }
}

/// One step takes a run that is not over to the next stage or fails it, and
/// leaves a run that is over as it is: the stages come in one order, with no
/// way back and none around.
pub proof fn lemma_step_moves_on(run: Pipeline, supply: Supply, min_chars: nat, next: Pipeline)
    requires
        run.steps_to(supply, min_chars, next),
    ensures
        run.is_over() ==> next == run,
        !run.is_over() ==> next is Failed || next.rank() == run.rank() + 1,
{
}

/// One step keeps the counts of a run in agreement with what it holds.
pub proof fn lemma_step_keeps_consistent(
    run: Pipeline,
    supply: Supply,
    min_chars: nat,
    next: Pipeline,
)
    requires
        run.steps_to(supply, min_chars, next),
        run.consistent(),
    ensures
        next.consistent(),
{
    match run {
        Pipeline::LinesGrouped { lines, .. } => {
            if next is TextRecognized {
                let recognized = next->recognized;
                lemma_no_more_lines_than_words(boxes(lines@));
                assert(recognized@.len() == optional_views(recognized@).len());
                if let Supply::Texts(Ok(found)) = supply {
                    assert forall|i: int| 0 <= i < recognized@.len() implies (
                    #[trigger] recognized@[i] matches Some(line) ==> line.source == i) by {
                        if lines@.len() > 0 {
                            assert(optional_views(recognized@)[i] == attributed(
                                text_views(found@),
                            )[i]);
                        }
                    }
                }
            }
        },
        Pipeline::TextRecognized { recognized, .. } => {
            lemma_filtered_is_no_longer(optional_views(recognized@), min_chars);
        },
        _ => {},
    }
}

/// A run that is over is done or has failed, never both: it has its output
/// or the one error that ended it.
pub proof fn lemma_over_is_done_or_failed(run: Pipeline)
    ensures
        run.is_over() <==> (run is Done) != (run is Failed),
{
}

/// Seven steps end every run: whatever the engine answers and wherever the
/// run began, it is done or has failed after them, and further steps change
/// nothing.
pub proof fn lemma_seven_steps_end_a_run(
    stages: Seq<Pipeline>,
    supplies: Seq<Supply>,
    min_chars: nat,
)
    requires
        stages.len() >= 8,
        supplies.len() + 1 == stages.len(),
        forall|i: int|
            0 <= i < supplies.len() ==> (#[trigger] stages[i]).steps_to(
                supplies[i],
                min_chars,
                stages[i + 1],
            ),
    ensures
        stages.last().is_over(),
        forall|i: int| 7 <= i < stages.len() ==> #[trigger] stages[i] == stages[7],
{
    assert forall|i: int| 0 <= i < stages.len() implies (#[trigger] stages[i]).is_over()
        || stages[i].rank() >= i by {
        lemma_rank_keeps_up(stages, supplies, min_chars, i);
    }
    assert forall|i: int| 7 <= i < stages.len() implies #[trigger] stages[i] == stages[7] by {
        lemma_over_stays(stages, supplies, min_chars, 7, i);
    }
}

/// After `i` steps a run is over or has `i` stages behind it.
proof fn lemma_rank_keeps_up(stages: Seq<Pipeline>, supplies: Seq<Supply>, min_chars: nat, i: int)
    requires
        supplies.len() + 1 == stages.len(),
        forall|k: int|
            0 <= k < supplies.len() ==> (#[trigger] stages[k]).steps_to(
                supplies[k],
                min_chars,
                stages[k + 1],
            ),
        0 <= i < stages.len(),
    ensures
        stages[i].is_over() || stages[i].rank() >= i,
    decreases i,
{
    if i > 0 {
        lemma_rank_keeps_up(stages, supplies, min_chars, i - 1);
        lemma_step_moves_on(stages[i - 1], supplies[i - 1], min_chars, stages[i]);
    }
}

/// A run that is over after `from` steps is the same after any more.
proof fn lemma_over_stays(
    stages: Seq<Pipeline>,
    supplies: Seq<Supply>,
    min_chars: nat,
    from: int,
    i: int,
)
    requires
        supplies.len() + 1 == stages.len(),
        forall|k: int|
            0 <= k < supplies.len() ==> (#[trigger] stages[k]).steps_to(
                supplies[k],
                min_chars,
                stages[k + 1],
            ),
        0 <= from <= i < stages.len(),
        stages[from].is_over(),
    ensures
        stages[i] == stages[from],
    decreases i - from,
{
    if i > from {
        lemma_over_stays(stages, supplies, min_chars, from, i - 1);
    }
}

/// In a run that is done, the counts are in order: no more lines are left
/// than there were line groups, and there were no more line groups than
/// words.
pub proof fn lemma_done_counts_in_order(run: Pipeline)
    requires
        run.consistent(),
        run is Done,
    ensures
        run->kept@.len() <= run->line_count <= run->Done_word_count,
{
}

/// A run whose models make an engine and whose image could not be read
/// fails with `ImageNotFound` and the image's path, before a word is looked
/// for: a failed run needs nothing, announces nothing and has no output.
pub proof fn lemma_missing_image_fails_early(
    run: Pipeline,
    path: String,
    min_chars: nat,
    next: Pipeline,
)
    requires
        run matches Pipeline::ModelsLoaded { detection, recognition } && engine_failure(
            detection,
            recognition,
        ) is None,
        run.steps_to(Supply::ImageFile { path, read: None }, min_chars, next),
    ensures
        next matches Pipeline::Failed { error } && error@ == (PipelineErrorView::ImageNotFound {
            path: path@,
        }),
{
}

/// Grouping is deterministic: two steps from the same words give the same
/// lines, in the same order, with the same words in the same order in each.
pub proof fn lemma_grouping_is_deterministic(
    first: Pipeline,
    second: Pipeline,
    supply: Supply,
    other: Supply,
    min_chars: nat,
    after_first: Pipeline,
    after_second: Pipeline,
)
    requires
        first is WordsDetected,
        second is WordsDetected,
        first->words@ == second->words@,
        first.steps_to(supply, min_chars, after_first),
        second.steps_to(other, min_chars, after_second),
    ensures
        after_first is LinesGrouped <==> after_second is LinesGrouped,
        after_first is LinesGrouped ==> boxes(after_first->lines@) == boxes(after_second->lines@),
{
}

} // verus!
