//! Loading the two models. `rten` owns the format of a model file, and its
//! parser takes some of what a file says of itself on trust; so the driver
//! reads and parses, and what came of it is judged here.

use crate::error::{ModelRole, PipelineError, PipelineErrorView};
use vstd::prelude::*;

verus! {

#[verifier::external_type_specification]
#[verifier::external_body]
pub struct ExModel(rten::Model);

/// What came of reading and parsing a model file: `None` where the file
/// could not be read, else the model or the parser's reason for refusing it.
pub type ModelRead = Option<Result<rten::Model, String>>;

/// What a model file that was read and parsed, or was not, gives.
pub open spec fn model_outcome(role: ModelRole, read: ModelRead) -> Result<
    rten::Model,
    PipelineErrorView,
> {
    match read {
        None => Err(PipelineErrorView::ModelNotFound { role }),
        Some(Err(detail)) => Err(PipelineErrorView::ModelCorrupt { role, detail: detail@ }),
        Some(Ok(model)) => Ok(model),
    }
}

/// The model that is loaded, by its outcome: the model itself, or the view
/// of the error.
pub open spec fn loaded_view(loaded: Result<rten::Model, PipelineError>) -> Result<
    rten::Model,
    PipelineErrorView,
> {
    match loaded {
        Ok(model) => Ok(model),
        Err(error) => Err(error@),
    }
}

/// Loads one model from what came of reading and parsing its file.
///
/// A file that could not be read is `ModelNotFound`. A file that the parser
/// refused is `ModelCorrupt` with the parser's reason. Any other gives the
/// model that was parsed.
pub fn load_model(role: ModelRole, read: ModelRead) -> (loaded: Result<rten::Model, PipelineError>)
    ensures
        loaded_view(loaded) == model_outcome(role, read),
{
    match read {
        None => Err(PipelineError::ModelNotFound { role }),
        Some(Err(detail)) => Err(PipelineError::ModelCorrupt { role, detail }),
        Some(Ok(model)) => Ok(model),
    }
}

} // verus!
