//! Validated domain values and the QA-run lifecycle.

pub mod figma_file_key;
pub mod figma_node_id;
pub mod new_qa_run;
pub mod project;
pub mod project_name;
pub mod qa_run;
pub mod target_url;

pub use figma_file_key::FigmaFileKey;
pub use figma_node_id::FigmaNodeId;
pub use project_name::ProjectName;
pub use target_url::TargetUrl;
pub use new_qa_run::{NewQaRun, NewQaRunError};
pub use qa_run::{QaRun, RunStateError, RunStatus};
pub use project::Project;
