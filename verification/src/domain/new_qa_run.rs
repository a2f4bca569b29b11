//! A request for a QA run, validated field by field.

use crate::domain::figma_file_key::figma_file_key_outcome;
use crate::domain::figma_node_id::figma_node_id_outcome;
use crate::domain::target_url::target_url_outcome;
use crate::domain::{FigmaFileKey, FigmaNodeId, TargetUrl};
use crate::routes::CreateRunRequest;
use uuid::Uuid;
use vstd::prelude::*;

verus! {

/// A QA run that has passed validation and is yet to be stored.
pub struct NewQaRun {
    pub project_id: Uuid,
    pub target_url: TargetUrl,
    pub figma_file_key: FigmaFileKey,
    pub figma_node_id: FigmaNodeId,
}

/// The first field of a run request that failed validation, with the
/// validator's message.
#[derive(Debug)]
pub enum NewQaRunError {
    TargetUrlError(String),
    FigmaFileKeyError(String),
    FigmaNodeIdError(String),
}

/// `NewQaRunError` seen through the text of its message.
pub enum NewQaRunFailure {
    TargetUrl(Seq<char>),
    FigmaFileKey(Seq<char>),
    FigmaNodeId(Seq<char>),
}

impl View for NewQaRunError {
    type V = NewQaRunFailure;

    open spec fn view(&self) -> NewQaRunFailure {
        match self {
            NewQaRunError::TargetUrlError(m) => NewQaRunFailure::TargetUrl(m@),
            NewQaRunError::FigmaFileKeyError(m) => NewQaRunFailure::FigmaFileKey(m@),
            NewQaRunError::FigmaNodeIdError(m) => NewQaRunFailure::FigmaNodeId(m@),
        }
    }
}

/// The texts of a validated run: target URL, file key, node id.
pub type NewQaRunText = (Seq<char>, Seq<char>, Seq<char>);

/// What validating a run request with these three fields gives: the
/// fields are checked in order and the first failure is reported.
pub open spec fn new_qa_run_outcome(
    target_url: Seq<char>,
    figma_file_key: Seq<char>,
    figma_node_id: Seq<char>,
) -> Result<NewQaRunText, NewQaRunFailure> {
    match target_url_outcome(target_url) {
        Err(m) => Err(NewQaRunFailure::TargetUrl(m)),
        Ok(u) => match figma_file_key_outcome(figma_file_key) {
            Err(m) => Err(NewQaRunFailure::FigmaFileKey(m)),
            Ok(k) => match figma_node_id_outcome(figma_node_id) {
                Err(m) => Err(NewQaRunFailure::FigmaNodeId(m)),
                Ok(n) => Ok((u, k, n)),
            },
        },
    }
}

/// The result of validating a run request, seen through its texts.
pub open spec fn new_qa_run_result(r: Result<NewQaRun, NewQaRunError>) -> Result<
    NewQaRunText,
    NewQaRunFailure,
> {
    match r {
        Ok(run) => Ok((run.target_url@, run.figma_file_key@, run.figma_node_id@)),
        Err(e) => Err(e@),
    }
}

/// The contract of `NewQaRun::try_from` is the `ensures` of the impl below,
/// stated over the texts of the values; `try_from_spec` is not claimed.
impl vstd::std_specs::convert::TryFromSpecImpl<(CreateRunRequest, Uuid)> for NewQaRun {
    open spec fn obeys_try_from_spec() -> bool {
        false
    }

    open spec fn try_from_spec(v: (CreateRunRequest, Uuid)) -> Result<Self, NewQaRunError> {
        vstd::pervasive::arbitrary()
    }
}

impl TryFrom<(CreateRunRequest, Uuid)> for NewQaRun {
    type Error = NewQaRunError;

    /// Validates the target URL, the file key and the node id of the
    /// request, in that order, for the project `value.1`.
    fn try_from(value: (CreateRunRequest, Uuid)) -> (r: Result<Self, Self::Error>)
        ensures
            new_qa_run_result(r) == new_qa_run_outcome(
                value.0.target_url@,
                value.0.figma_file_key@,
                value.0.figma_node_id@,
            ),
            r matches Ok(run) ==> run.project_id == value.1,
    {
        let (req, project_id) = value;
        let CreateRunRequest { project_id: _, target_url, figma_file_key, figma_node_id } = req;
        let target_url = match TargetUrl::parse(target_url) {
            Ok(u) => u,
            Err(m) => return Err(NewQaRunError::TargetUrlError(m)),
        };
        let figma_file_key = match FigmaFileKey::parse(figma_file_key) {
            Ok(k) => k,
            Err(m) => return Err(NewQaRunError::FigmaFileKeyError(m)),
        };
        let figma_node_id = match FigmaNodeId::parse(figma_node_id) {
            Ok(n) => n,
            Err(m) => return Err(NewQaRunError::FigmaNodeIdError(m)),
        };
        Ok(NewQaRun { project_id, target_url, figma_file_key, figma_node_id })
    }
}

} // verus!
