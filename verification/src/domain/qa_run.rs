//! A QA run and its lifecycle: `Pending`, then `Running`, then
//! `Completed` or `Failed`.

use crate::bindings::utc_now;
use crate::timestamp::Timestamp;
use crate::domain::NewQaRun;
use crate::text::same_text;
use uuid::Uuid;
use vstd::prelude::*;

verus! {

/// Where a QA run stands.
#[derive(Clone, Copy, Debug, PartialEq, Eq, Structural)]
pub enum RunStatus {
    Pending,
    Running,
    Completed,
    Failed,
}

impl RunStatus {
    /// The name under which a status is stored and shown.
    pub open spec fn name(self) -> Seq<char> {
        match self {
            RunStatus::Pending => "pending"@,
            RunStatus::Running => "running"@,
            RunStatus::Completed => "completed"@,
            RunStatus::Failed => "failed"@,
        }
    }

    pub fn as_str(&self) -> (r: &'static str)
        ensures
            r@ == self.name(),
    {
        match self {
            RunStatus::Pending => "pending",
            RunStatus::Running => "running",
            RunStatus::Completed => "completed",
            RunStatus::Failed => "failed",
        }
    }

    /// The status with the name `s`, if any.
    pub fn from_name(s: &str) -> (r: Option<RunStatus>)
        ensures
            match r {
                Some(status) => status.name() == s@,
                None => forall|status: RunStatus| #[trigger] status.name() != s@,
            },
    {
        if same_text(s, "pending") {
            Some(RunStatus::Pending)
        } else if same_text(s, "running") {
            Some(RunStatus::Running)
        } else if same_text(s, "completed") {
            Some(RunStatus::Completed)
        } else if same_text(s, "failed") {
            Some(RunStatus::Failed)
        } else {
            None
        }
    }
}

/// No two statuses share a name, so a status is read back from its name.
pub proof fn lemma_run_status_names_distinct(a: RunStatus, b: RunStatus)
    ensures
        a.name() == b.name() ==> a == b,
{
    reveal_strlit("pending");
    reveal_strlit("running");
    reveal_strlit("completed");
    reveal_strlit("failed");
    if a != b {
        assert(a.name().len() != b.name().len() || a.name()[0] != b.name()[0]);
    }
}

/// A transition refused in the status the run had.
#[derive(Clone, Copy, Debug, PartialEq, Eq, Structural)]
pub enum RunStateError {
    CannotStart(RunStatus),
    CannotComplete(RunStatus),
    CannotFail(RunStatus),
}

/// The transitions of a QA run.
#[derive(Clone, Copy, Debug, PartialEq, Eq, Structural)]
pub enum RunEvent {
    Start,
    Complete,
    Fail,
}

/// The status a run moves to on `event`, or `None` where `status` does
/// not allow it: a pending run starts, a running run completes or fails.
pub open spec fn next_status(status: RunStatus, event: RunEvent) -> Option<RunStatus> {
    match (event, status) {
        (RunEvent::Start, RunStatus::Pending) => Some(RunStatus::Running),
        (RunEvent::Complete, RunStatus::Running) => Some(RunStatus::Completed),
        (RunEvent::Fail, RunStatus::Running) => Some(RunStatus::Failed),
        _ => None,
    }
}

/// The error that refuses `event` in `status`.
pub open spec fn refusal(status: RunStatus, event: RunEvent) -> RunStateError {
    match event {
        RunEvent::Start => RunStateError::CannotStart(status),
        RunEvent::Complete => RunStateError::CannotComplete(status),
        RunEvent::Fail => RunStateError::CannotFail(status),
    }
}

/// The contents of a `QaRun`.
pub struct QaRunView {
    pub run_id: Uuid,
    pub project_id: Uuid,
    pub target_url: Seq<char>,
    pub figma_file_key: Seq<char>,
    pub figma_node_id: Seq<char>,
    pub status: RunStatus,
    pub created_at: Timestamp,
    pub started_at: Option<Timestamp>,
    pub completed_at: Option<Timestamp>,
}

/// What `event` at the instant `at` does to the run `v`: the answer, and
/// the run afterwards. A refused event leaves the run as it was.
pub open spec fn fire(v: QaRunView, event: RunEvent, at: Timestamp) -> (
    Result<(), RunStateError>,
    QaRunView,
) {
    match next_status(v.status, event) {
        None => (Err(refusal(v.status, event)), v),
        Some(s) => (
            Ok(()),
            match event {
                RunEvent::Start => QaRunView { status: s, started_at: Some(at), ..v },
                _ => QaRunView { status: s, completed_at: Some(at), ..v },
            },
        ),
    }
}

/// The timestamps agree with the status: a pending run has neither, a
/// running run has been started, a finished run has both.
pub open spec fn timeline_consistent(v: QaRunView) -> bool {
    match v.status {
        RunStatus::Pending => v.started_at is None && v.completed_at is None,
        RunStatus::Running => v.started_at is Some && v.completed_at is None,
        _ => v.started_at is Some && v.completed_at is Some,
    }
}

/// How far along its lifecycle a status is.
pub open spec fn stage(status: RunStatus) -> int {
    match status {
        RunStatus::Pending => 0,
        RunStatus::Running => 1,
        _ => 2,
    }
}

/// Every transition, accepted or refused, keeps the timestamps in step
/// with the status.
pub proof fn lemma_fire_keeps_timeline(v: QaRunView, event: RunEvent, at: Timestamp)
    requires
        timeline_consistent(v),
    ensures
        timeline_consistent(fire(v, event, at).1),
{
}

/// A completed or failed run refuses every transition and stays as it is.
pub proof fn lemma_finished_run_is_final(v: QaRunView, event: RunEvent, at: Timestamp)
    requires
        v.status == RunStatus::Completed || v.status == RunStatus::Failed,
    ensures
        fire(v, event, at) == (Err::<(), RunStateError>(refusal(v.status, event)), v),
{
}

/// An accepted transition moves the status one stage forward; the status
/// never goes back.
pub proof fn lemma_fire_moves_forward(v: QaRunView, event: RunEvent, at: Timestamp)
    ensures
        fire(v, event, at).0 is Ok ==> stage(fire(v, event, at).1.status) == stage(v.status) + 1,
        fire(v, event, at).0 is Err ==> fire(v, event, at).1 == v,
{
}

/// A transition never touches the identity of a run or its creation time,
/// and, in a consistent run, never overwrites a timestamp already set.
pub proof fn lemma_fire_keeps_identity(v: QaRunView, event: RunEvent, at: Timestamp)
    ensures
        ({
            let w = fire(v, event, at).1;
            &&& w.run_id == v.run_id
            &&& w.project_id == v.project_id
            &&& w.target_url == v.target_url
            &&& w.figma_file_key == v.figma_file_key
            &&& w.figma_node_id == v.figma_node_id
            &&& w.created_at == v.created_at
            &&& timeline_consistent(v) && v.started_at is Some ==> w.started_at == v.started_at
            &&& timeline_consistent(v) && v.completed_at is Some ==> w.completed_at
                == v.completed_at
        }),
{
}

/// What each accepted transition does, field by field: starting a pending
/// run stamps `started_at` with the instant of the start; completing or
/// failing a running run stamps `completed_at` with the instant of that
/// event; the other timestamp and every other field stay as they were.
pub proof fn lemma_transitions_stamp_their_instant(v: QaRunView, at: Timestamp)
    ensures
        v.status == RunStatus::Pending ==> {
            let (r, w) = fire(v, RunEvent::Start, at);
            &&& r is Ok
            &&& w.status == RunStatus::Running
            &&& w.started_at == Some(at)
            &&& w.completed_at == v.completed_at
        },
        v.status == RunStatus::Running ==> {
            let (r, w) = fire(v, RunEvent::Complete, at);
            &&& r is Ok
            &&& w.status == RunStatus::Completed
            &&& w.completed_at == Some(at)
            &&& w.started_at == v.started_at
        },
        v.status == RunStatus::Running ==> {
            let (r, w) = fire(v, RunEvent::Fail, at);
            &&& r is Ok
            &&& w.status == RunStatus::Failed
            &&& w.completed_at == Some(at)
            &&& w.started_at == v.started_at
        },
{
}

/// Which transitions are refused, and with which error: only a pending run
/// starts, and only a running run completes or fails.
pub proof fn lemma_refused_transitions(v: QaRunView, at: Timestamp)
    ensures
        v.status != RunStatus::Pending ==> fire(v, RunEvent::Start, at) == (Err::<(), RunStateError>(
            RunStateError::CannotStart(v.status),
        ), v),
        v.status != RunStatus::Running ==> fire(v, RunEvent::Complete, at) == (Err::<
            (),
            RunStateError,
        >(RunStateError::CannotComplete(v.status)), v),
        v.status != RunStatus::Running ==> fire(v, RunEvent::Fail, at) == (Err::<(), RunStateError>(
            RunStateError::CannotFail(v.status),
        ), v),
{
}

/// One QA run of a project.
pub struct QaRun {
    pub run_id: Uuid,
    pub project_id: Uuid,
    pub target_url: String,
    pub figma_file_key: String,
    pub figma_node_id: String,
    status: RunStatus,
    pub created_at: Timestamp,
    started_at: Option<Timestamp>,
    completed_at: Option<Timestamp>,
}

impl View for QaRun {
    type V = QaRunView;

    closed spec fn view(&self) -> QaRunView {
        QaRunView {
            run_id: self.run_id,
            project_id: self.project_id,
            target_url: self.target_url@,
            figma_file_key: self.figma_file_key@,
            figma_node_id: self.figma_node_id@,
            status: self.status,
            created_at: self.created_at,
            started_at: self.started_at,
            completed_at: self.completed_at,
        }
    }
}

impl QaRun {
    /// A pending run of `run` with the id `run_id`, created now.
    pub fn new(run: NewQaRun, run_id: Uuid) -> (r: Self)
        ensures
            r@.run_id == run_id,
            r@.project_id == run.project_id,
            r@.target_url == run.target_url@,
            r@.figma_file_key == run.figma_file_key@,
            r@.figma_node_id == run.figma_node_id@,
            r@.status == RunStatus::Pending,
            r@.started_at is None,
            r@.completed_at is None,
            r@.created_at.nanos < 1_000_000_000,
            timeline_consistent(r@),
    {
        let created_at = utc_now();
        Self::new_at(run, run_id, created_at)
    }

    /// A pending run of `run` with the id `run_id`, created at `created_at`.
    pub fn new_at(run: NewQaRun, run_id: Uuid, created_at: Timestamp) -> (r: Self)
        ensures
            r@ == (QaRunView {
                run_id,
                project_id: run.project_id,
                target_url: run.target_url@,
                figma_file_key: run.figma_file_key@,
                figma_node_id: run.figma_node_id@,
                status: RunStatus::Pending,
                created_at,
                started_at: None,
                completed_at: None,
            }),
    {
        QaRun {
            run_id,
            project_id: run.project_id,
            target_url: String::from_str(run.target_url.as_ref()),
            figma_file_key: String::from_str(run.figma_file_key.as_ref()),
            figma_node_id: String::from_str(run.figma_node_id.as_ref()),
            status: RunStatus::Pending,
            created_at,
            started_at: None,
            completed_at: None,
        }
    }

    /// A run with exactly these contents, as stored.
    pub fn from_parts(
        run_id: Uuid,
        project_id: Uuid,
        target_url: String,
        figma_file_key: String,
        figma_node_id: String,
        status: RunStatus,
        created_at: Timestamp,
        started_at: Option<Timestamp>,
        completed_at: Option<Timestamp>,
    ) -> (r: Self)
        ensures
            r@ == (QaRunView {
                run_id,
                project_id,
                target_url: target_url@,
                figma_file_key: figma_file_key@,
                figma_node_id: figma_node_id@,
                status,
                created_at,
                started_at,
                completed_at,
            }),
    {
        QaRun {
            run_id,
            project_id,
            target_url,
            figma_file_key,
            figma_node_id,
            status,
            created_at,
            started_at,
            completed_at,
        }
    }

    pub fn status(&self) -> (r: RunStatus)
        ensures
            r == self@.status,
    {
        self.status
    }

    pub fn completed_at(&self) -> (r: Option<Timestamp>)
        ensures
            r == self@.completed_at,
    {
        self.completed_at
    }

    pub fn started_at(&self) -> (r: Option<Timestamp>)
        ensures
            r == self@.started_at,
    {
        self.started_at
    }

    /// Applies `event` at the instant `at`, when the status allows it.
    pub fn apply_at(&mut self, event: RunEvent, at: Timestamp) -> (r: Result<(), RunStateError>)
        ensures
            (r, final(self)@) == fire(old(self)@, event, at),
            event == RunEvent::Start && old(self)@.status == RunStatus::Pending ==> {
                &&& r is Ok
                &&& final(self)@.status == RunStatus::Running
                &&& final(self)@.started_at == Some(at)
                &&& final(self)@.completed_at == old(self)@.completed_at
            },
            event == RunEvent::Complete && old(self)@.status == RunStatus::Running ==> {
                &&& r is Ok
                &&& final(self)@.status == RunStatus::Completed
                &&& final(self)@.completed_at == Some(at)
                &&& final(self)@.started_at == old(self)@.started_at
            },
            event == RunEvent::Fail && old(self)@.status == RunStatus::Running ==> {
                &&& r is Ok
                &&& final(self)@.status == RunStatus::Failed
                &&& final(self)@.completed_at == Some(at)
                &&& final(self)@.started_at == old(self)@.started_at
            },
            event == RunEvent::Start && old(self)@.status != RunStatus::Pending ==> r == Err::<
                (),
                RunStateError,
            >(RunStateError::CannotStart(old(self)@.status)),
            event == RunEvent::Complete && old(self)@.status != RunStatus::Running ==> r == Err::<
                (),
                RunStateError,
            >(RunStateError::CannotComplete(old(self)@.status)),
            event == RunEvent::Fail && old(self)@.status != RunStatus::Running ==> r == Err::<
                (),
                RunStateError,
            >(RunStateError::CannotFail(old(self)@.status)),
            r is Err ==> final(self)@ == old(self)@,
            final(self)@.run_id == old(self)@.run_id,
            final(self)@.project_id == old(self)@.project_id,
            final(self)@.target_url == old(self)@.target_url,
            final(self)@.figma_file_key == old(self)@.figma_file_key,
            final(self)@.figma_node_id == old(self)@.figma_node_id,
            final(self)@.created_at == old(self)@.created_at,
    {
        match (event, self.status) {
            (RunEvent::Start, RunStatus::Pending) => {
                self.status = RunStatus::Running;
                self.started_at = Some(at);
                Ok(())
            },
            (RunEvent::Complete, RunStatus::Running) => {
                self.status = RunStatus::Completed;
                self.completed_at = Some(at);
                Ok(())
            },
            (RunEvent::Fail, RunStatus::Running) => {
                self.status = RunStatus::Failed;
                self.completed_at = Some(at);
                Ok(())
            },
            (RunEvent::Start, s) => Err(RunStateError::CannotStart(s)),
            (RunEvent::Complete, s) => Err(RunStateError::CannotComplete(s)),
            (RunEvent::Fail, s) => Err(RunStateError::CannotFail(s)),
        }
    }

    /// Moves a pending run to `Running`, stamping `started_at` with the
    /// current time; any other status refuses with `CannotStart`.
    pub fn start(&mut self) -> (r: Result<(), RunStateError>)
        ensures
            exists|at: Timestamp|
                at.nanos < 1_000_000_000 && (r, final(self)@) == #[trigger] fire(
                    old(self)@,
                    RunEvent::Start,
                    at,
                ),
            old(self)@.status == RunStatus::Pending ==> {
                &&& r is Ok
                &&& final(self)@.status == RunStatus::Running
                &&& final(self)@.started_at is Some
                &&& final(self)@.completed_at == old(self)@.completed_at
            },
            old(self)@.status != RunStatus::Pending ==> r == Err::<(), RunStateError>(
                RunStateError::CannotStart(old(self)@.status),
            ) && final(self)@ == old(self)@,
    {
        let now = utc_now();
        self.apply_at(RunEvent::Start, now)
    }

    /// Moves a running run to `Completed`, stamping `completed_at` with the
    /// current time; any other status refuses with `CannotComplete`.
    pub fn complete(&mut self) -> (r: Result<(), RunStateError>)
        ensures
            exists|at: Timestamp|
                at.nanos < 1_000_000_000 && (r, final(self)@) == #[trigger] fire(
                    old(self)@,
                    RunEvent::Complete,
                    at,
                ),
            old(self)@.status == RunStatus::Running ==> {
                &&& r is Ok
                &&& final(self)@.status == RunStatus::Completed
                &&& final(self)@.completed_at is Some
                &&& final(self)@.started_at == old(self)@.started_at
            },
            old(self)@.status != RunStatus::Running ==> r == Err::<(), RunStateError>(
                RunStateError::CannotComplete(old(self)@.status),
            ) && final(self)@ == old(self)@,
    {
        let now = utc_now();
        self.apply_at(RunEvent::Complete, now)
    }

    /// Moves a running run to `Failed`, stamping `completed_at` with the
    /// current time; any other status refuses with `CannotFail`.
    pub fn fail(&mut self) -> (r: Result<(), RunStateError>)
        ensures
            exists|at: Timestamp|
                at.nanos < 1_000_000_000 && (r, final(self)@) == #[trigger] fire(
                    old(self)@,
                    RunEvent::Fail,
                    at,
                ),
            old(self)@.status == RunStatus::Running ==> {
                &&& r is Ok
                &&& final(self)@.status == RunStatus::Failed
                &&& final(self)@.completed_at is Some
                &&& final(self)@.started_at == old(self)@.started_at
            },
            old(self)@.status != RunStatus::Running ==> r == Err::<(), RunStateError>(
                RunStateError::CannotFail(old(self)@.status),
            ) && final(self)@ == old(self)@,
    {
        let now = utc_now();
        self.apply_at(RunEvent::Fail, now)
    }
}

} // verus!
