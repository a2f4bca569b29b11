//! A project, as stored.

use crate::timestamp::Timestamp;
use crate::domain::ProjectName;
use uuid::Uuid;
use vstd::prelude::*;

verus! {

/// A project and its bookkeeping times.
pub struct Project {
    pub project_id: Uuid,
    pub name: ProjectName,
    pub created_at: Timestamp,
    pub updated_at: Timestamp,
}

} // verus!
