//! The bodies of the requests the service accepts.

use uuid::Uuid;
use vstd::prelude::*;

verus! {

/// The body of a request to create a project.
pub struct CreateProjectRequest {
    pub name: String,
}

/// A request to start a QA run in the project `project_id`.
pub struct CreateRunRequest {
    pub project_id: Uuid,
    pub target_url: String,
    pub figma_file_key: String,
    pub figma_node_id: String,
}

} // verus!
