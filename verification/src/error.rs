//! What can end a run early. Every error is final: nothing is retried and a
//! failed run has no output.

use vstd::prelude::*;
use vstd::string::*;

verus! {

/// Which of the two models.
#[derive(Clone, Copy, Debug, PartialEq, Eq, Structural)]
pub enum ModelRole {
    /// The model that finds words.
    Detection,
    /// The model that reads lines.
    Recognition,
}

/// A stage of the run that calls into the inference engine.
#[derive(Clone, Copy, Debug, PartialEq, Eq, Structural)]
pub enum Stage {
    /// The engine is made from the two models.
    Engine,
    /// The image is turned into the engine's input.
    Prepare,
    /// Words are located.
    Detect,
    /// Words are grouped into lines.
    Group,
    /// Lines are read.
    Recognize,
}

/// The kinds of error that a run can end in.
#[derive(Clone, Copy, Debug, PartialEq, Eq, Structural)]
pub enum ErrorKind {
    /// A model file is missing or is no model.
    ModelLoad,
    /// The image is missing or cannot be decoded.
    ImageLoad,
    /// The inference engine failed.
    Inference,
}

/// The error that ended a run.
#[derive(Clone, Debug, PartialEq, Eq)]
pub enum PipelineError {
    /// A model file could not be read.
    ModelNotFound { role: ModelRole },
    /// A model file was read and is no model.
    ModelCorrupt { role: ModelRole, detail: String },
    /// The image file could not be read.
    ImageNotFound { path: String },
    /// The image file was read and could not be decoded.
    ImageDecode { path: String, detail: String },
    /// A call into the inference engine failed.
    Inference { stage: Stage, detail: String },
}

/// The mathematical content of a [`PipelineError`].
pub enum PipelineErrorView {
    ModelNotFound { role: ModelRole },
    ModelCorrupt { role: ModelRole, detail: Seq<char> },
    ImageNotFound { path: Seq<char> },
    ImageDecode { path: Seq<char>, detail: Seq<char> },
    Inference { stage: Stage, detail: Seq<char> },
}

impl View for PipelineError {
    type V = PipelineErrorView;

    open spec fn view(&self) -> PipelineErrorView {
        match self {
            PipelineError::ModelNotFound { role } => PipelineErrorView::ModelNotFound {
                role: *role,
            },
            PipelineError::ModelCorrupt { role, detail } => PipelineErrorView::ModelCorrupt {
                role: *role,
                detail: detail@,
            },
            PipelineError::ImageNotFound { path } => PipelineErrorView::ImageNotFound {
                path: path@,
            },
            PipelineError::ImageDecode { path, detail } => PipelineErrorView::ImageDecode {
                path: path@,
                detail: detail@,
            },
            PipelineError::Inference { stage, detail } => PipelineErrorView::Inference {
                stage: *stage,
                detail: detail@,
            },
        }
    }
}

/// The file that a model is loaded from, relative to the working directory.
pub open spec fn model_path(role: ModelRole) -> Seq<char> {
    match role {
        ModelRole::Detection => "./text-detection.rten"@,
        ModelRole::Recognition => "./text-recognition.rten"@,
    }
}

/// What a stage is called in messages.
pub open spec fn stage_label(stage: Stage) -> Seq<char> {
    match stage {
        Stage::Engine => "Starting engine"@,
        Stage::Prepare => "Preparing input"@,
        Stage::Detect => "Detecting words"@,
        Stage::Group => "Finding text lines"@,
        Stage::Recognize => "Recognizing text"@,
    }
}

/// The kind of an error.
pub open spec fn kind_of(error: PipelineErrorView) -> ErrorKind {
    match error {
        PipelineErrorView::ModelNotFound { .. } => ErrorKind::ModelLoad,
        PipelineErrorView::ModelCorrupt { .. } => ErrorKind::ModelLoad,
        PipelineErrorView::ImageNotFound { .. } => ErrorKind::ImageLoad,
        PipelineErrorView::ImageDecode { .. } => ErrorKind::ImageLoad,
        PipelineErrorView::Inference { .. } => ErrorKind::Inference,
    }
}

/// An error in words. The message names what failed: the file, or the stage.
pub open spec fn message_of(error: PipelineErrorView) -> Seq<char> {
    match error {
        PipelineErrorView::ModelNotFound { role } => "Cannot open "@ + quoted_text(
            model_path(role),
        ),
        PipelineErrorView::ModelCorrupt { role, detail } => "Cannot open "@ + quoted_text(
            model_path(role),
        ) + ": "@ + detail,
        PipelineErrorView::ImageNotFound { path } => "Image not found at "@ + quoted_text(path),
        PipelineErrorView::ImageDecode { path, detail } => "Cannot decode "@ + quoted_text(path)
            + ": "@ + detail,
        PipelineErrorView::Inference { stage, detail } => stage_label(stage) + " failed: "@
            + detail,
    }
}

/// A string as `Debug` prints it: in double quotes, with what cannot be
/// printed written as an escape.
pub uninterp spec fn quoted_text(text: Seq<char>) -> Seq<char>;

/// `Debug` of `str`.
#[verifier::external_body]
fn quoted(text: &str) -> (shown: String)
    ensures
        shown@ == quoted_text(text@),
{
    format!("{:?}", text)
}

impl ModelRole {
    /// The file that this model is loaded from, relative to the working
    /// directory.
    pub fn path(self) -> (path: &'static str)
        ensures
            path@ == model_path(self),
    {
        match self {
            ModelRole::Detection => "./text-detection.rten",
            ModelRole::Recognition => "./text-recognition.rten",
        }
    }
}

impl Stage {
    /// What this stage is called in messages.
    pub fn label(self) -> (label: &'static str)
        ensures
            label@ == stage_label(self),
    {
        match self {
            Stage::Engine => "Starting engine",
            Stage::Prepare => "Preparing input",
            Stage::Detect => "Detecting words",
            Stage::Group => "Finding text lines",
            Stage::Recognize => "Recognizing text",
        }
    }
}

impl PipelineError {
    /// The kind of this error.
    pub fn kind(&self) -> (kind: ErrorKind)
        ensures
            kind == kind_of(self@),
    {
        match self {
            PipelineError::ModelNotFound { .. } => ErrorKind::ModelLoad,
            PipelineError::ModelCorrupt { .. } => ErrorKind::ModelLoad,
            PipelineError::ImageNotFound { .. } => ErrorKind::ImageLoad,
            PipelineError::ImageDecode { .. } => ErrorKind::ImageLoad,
            PipelineError::Inference { .. } => ErrorKind::Inference,
        }
    }

    /// This error in words.
    pub fn message(&self) -> (text: String)
        ensures
            text@ == message_of(self@),
    {
        match self {
            PipelineError::ModelNotFound { role } => {
                let file = quoted(role.path());
                String::from_str("Cannot open ").concat(file.as_str())
            },
            PipelineError::ModelCorrupt { role, detail } => {
                let file = quoted(role.path());
                String::from_str("Cannot open ").concat(file.as_str()).concat(": ").concat(
                    detail.as_str(),
                )
            },
            PipelineError::ImageNotFound { path } => {
                let file = quoted(path.as_str());
                String::from_str("Image not found at ").concat(file.as_str())
            },
            PipelineError::ImageDecode { path, detail } => {
                let file = quoted(path.as_str());
                String::from_str("Cannot decode ").concat(file.as_str()).concat(": ").concat(
                    detail.as_str(),
                )
            },
            PipelineError::Inference { stage, detail } => {
                String::from_str(stage.label()).concat(" failed: ").concat(detail.as_str())
            },
        }
    }
}

} // verus!
