//! The start of one invocation: the configuration is settled first, then
//! the payload is decoded, and only then does the run of the batch begin.

use crate::batch::{start_spec, BatchRun, RunView, Turn, TurnView};
use crate::config::{resolve, resolved, ConfigError};
use crate::decoder::{decode, decoded, StructuralError};
use crate::json::Json;
use crate::model::text_opt;
use vstd::prelude::*;

verus! {

/// A failure that ends the whole invocation before any record is taken up.
#[derive(Debug, PartialEq, Eq)]
pub enum InvocationError {
    /// A required setting is absent.
    Configuration(ConfigError),
    /// The payload is no notification batch.
    Structure(StructuralError),
    /// The handles to the remote services could not be constructed.
    ClientInit { cause: String },
}

/// The view of an [`InvocationError`].
pub enum InvocationErrorView {
    Configuration(ConfigError),
    Structure(StructuralError),
    ClientInit { cause: Seq<char> },
}

impl View for InvocationError {
    type V = InvocationErrorView;

    open spec fn view(&self) -> InvocationErrorView {
        match self {
            InvocationError::Configuration(e) => InvocationErrorView::Configuration(*e),
            InvocationError::Structure(e) => InvocationErrorView::Structure(*e),
            InvocationError::ClientInit { cause } => InvocationErrorView::ClientInit {
                cause: cause@,
            },
        }
    }
}

impl InvocationError {
    /// The text that describes this error.
    pub fn message(&self) -> (text: String)
        ensures
            text@ == match self@ {
                InvocationErrorView::Configuration(e) => "Environment variable "@ + e.variable()
                    + " not set"@,
                InvocationErrorView::Structure(e) => crate::decoder::structural_text(e),
                InvocationErrorView::ClientInit { cause } => cause,
            },
    {
        match self {
            InvocationError::Configuration(e) => e.message(),
            InvocationError::Structure(e) => e.message(),
            InvocationError::ClientInit { cause } => cause.clone(),
        }
    }
}

/// How an invocation begins. An absent setting fails it, the collection
/// before the table; with both settings present a malformed payload fails
/// it; else the run of the decoded batch starts.
pub open spec fn begun(
    collection: Option<Seq<char>>,
    table: Option<Seq<char>>,
    payload: Json,
) -> Result<(RunView, TurnView), InvocationErrorView> {
    match resolved(collection, table) {
        Err(e) => Err(InvocationErrorView::Configuration(e)),
        Ok(config) => match decoded(payload) {
            Err(e) => Err(InvocationErrorView::Structure(e)),
            Ok(batch) => Ok(start_spec(config, batch)),
        },
    }
}

/// The view of what [`begin`] returns.
pub open spec fn beginning_view(r: Result<(BatchRun, Turn), InvocationError>) -> Result<
    (RunView, TurnView),
    InvocationErrorView,
> {
    match r {
        Ok((run, turn)) => Ok((run@, turn@)),
        Err(e) => Err(e@),
    }
}

/// Begins an invocation from the values of the two settings, each `None`
/// where it is not set, and the payload.
pub fn begin(collection: Option<String>, table: Option<String>, payload: &Json) -> (started:
    Result<(BatchRun, Turn), InvocationError>)
    ensures
        beginning_view(started) == begun(text_opt(collection), text_opt(table), *payload),
        started matches Ok((run, turn)) ==> run@.wf(),
{
    let config = match resolve(collection, table) {
        Ok(config) => config,
        Err(e) => return Err(InvocationError::Configuration(e)),
    };
    let batch = match decode(payload) {
        Ok(batch) => batch,
        Err(e) => return Err(InvocationError::Structure(e)),
    };
    Ok(BatchRun::start(config, batch))
}

} // verus!
