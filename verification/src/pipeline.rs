//! The single run of the pipeline as a state machine: the caller performs the
//! pending action against the table engine and reports what happened; the
//! machine decides what comes next.

use crate::batch::{BatchError, ColumnarBatch};
use crate::bootstrap::{bootstrap_plan, Plan};
use vstd::prelude::*;

verus! {

/// Why a run ends without a commit. Every one of them is fatal.
#[derive(Clone, Copy, Debug, PartialEq, Eq, Structural)]
pub enum PipelineError {
    /// The table location was not configured.
    Configuration,
    /// The table could not be opened or created.
    TableAccess,
    /// The batch does not fit the schema of the table.
    SchemaMismatch,
    /// The engine turned the commit down for a concurrent revision.
    CommitConflict,
    /// The storage could not be read or written.
    Io,
}

/// How far a run has come.
#[derive(Clone, Copy, Debug, PartialEq, Eq, Structural)]
pub enum Stage {
    /// Nothing is known yet.
    Unconfigured,
    /// The location is known but has not been looked at.
    Located,
    /// The location holds a table that has yet to be opened.
    Found,
    /// The location holds no table.
    Uninitialized,
    /// The existing table is open.
    Opened,
    /// The table has just been created.
    Bootstrapped,
    /// The readings stand in a batch.
    BatchBuilt,
    /// The writer has taken the batch.
    Staged,
    /// The batch is part of a new revision that added `files` data files.
    Committed { files: usize },
    /// The run was given up.
    Failed { error: PipelineError },
}

/// What the caller reports back to the machine.
#[derive(Clone, Copy, Debug, PartialEq, Eq, Structural)]
pub enum Event {
    /// The configuration was read; the location was there or not.
    Configured { location_present: bool },
    /// The location was looked at; the table marker was there or not.
    Probed { marker_present: bool },
    TableOpened,
    TableCreated,
    BatchBuilt,
    BatchStaged,
    /// The commit went through and added `files` data files.
    Committed { files: usize },
    /// The pending action failed.
    Failed { error: PipelineError },
}

/// What the caller has to do next.
#[derive(Clone, Copy, Debug, PartialEq, Eq, Structural)]
pub enum Action {
    ReadLocation,
    ProbeLocation,
    OpenTable,
    CreateTable,
    BuildBatch,
    StageBatch,
    FlushAndCommit,
    /// Nothing is left to do; `files` data files were added.
    Finish { files: usize },
    /// Nothing is left to do; the run failed.
    Abort { error: PipelineError },
}

impl Stage {
    /// A run is over once it is committed or failed.
    pub open spec fn is_terminal(self) -> bool {
        self is Committed || self is Failed
    }

    /// How many steps lie behind a stage. Stages that exclude each other share
    /// a rank.
    pub open spec fn rank(self) -> nat {
        match self {
            Stage::Unconfigured => 0,
            Stage::Located => 1,
            Stage::Found => 2,
            Stage::Uninitialized => 2,
            Stage::Opened => 3,
            Stage::Bootstrapped => 3,
            Stage::BatchBuilt => 4,
            Stage::Staged => 5,
            Stage::Committed { .. } => 6,
            Stage::Failed { .. } => 6,
        }
    }

    /// The action that a stage waits for.
    pub open spec fn pending(self) -> Action {
        match self {
            Stage::Unconfigured => Action::ReadLocation,
            Stage::Located => Action::ProbeLocation,
            Stage::Found => Action::OpenTable,
            Stage::Uninitialized => Action::CreateTable,
            Stage::Opened => Action::BuildBatch,
            Stage::Bootstrapped => Action::BuildBatch,
            Stage::BatchBuilt => Action::StageBatch,
            Stage::Staged => Action::FlushAndCommit,
            Stage::Committed { files } => Action::Finish { files },
            Stage::Failed { error } => Action::Abort { error },
        }
    }

    /// The stage that follows when `event` is reported, or `None` when the
    /// stage does not wait for such an event. A failure ends any run that is
    /// not over; a missing location is a configuration error.
    pub open spec fn next(self, event: Event) -> Option<Stage> {
        match (self, event) {
            (Stage::Committed { .. }, _) => None,
            (Stage::Failed { .. }, _) => None,
            (_, Event::Failed { error }) => Some(Stage::Failed { error }),
            (Stage::Unconfigured, Event::Configured { location_present }) => if location_present {
                Some(Stage::Located)
            } else {
                Some(Stage::Failed { error: PipelineError::Configuration })
            },
            (Stage::Located, Event::Probed { marker_present }) => match bootstrap_plan(
                marker_present,
            ) {
                Plan::Open => Some(Stage::Found),
                Plan::Create(_) => Some(Stage::Uninitialized),
            },
            (Stage::Found, Event::TableOpened) => Some(Stage::Opened),
            (Stage::Uninitialized, Event::TableCreated) => Some(Stage::Bootstrapped),
            (Stage::Opened, Event::BatchBuilt) => Some(Stage::BatchBuilt),
            (Stage::Bootstrapped, Event::BatchBuilt) => Some(Stage::BatchBuilt),
            (Stage::BatchBuilt, Event::BatchStaged) => Some(Stage::Staged),
            (Stage::Staged, Event::Committed { files }) => Some(Stage::Committed { files }),
            _ => None,
        }
    }

    /// The stage at which every run begins.
    pub fn start() -> (stage: Stage)
        ensures
            stage == Stage::Unconfigured,
    {
        Stage::Unconfigured
    }

    /// The action the caller has to perform at this stage.
    pub fn pending_action(&self) -> (action: Action)
        ensures
            action == self.pending(),
    {
        match self {
            Stage::Unconfigured => Action::ReadLocation,
            Stage::Located => Action::ProbeLocation,
            Stage::Found => Action::OpenTable,
            Stage::Uninitialized => Action::CreateTable,
            Stage::Opened => Action::BuildBatch,
            Stage::Bootstrapped => Action::BuildBatch,
            Stage::BatchBuilt => Action::StageBatch,
            Stage::Staged => Action::FlushAndCommit,
            Stage::Committed { files } => Action::Finish { files: *files },
            Stage::Failed { error } => Action::Abort { error: *error },
        }
    }

    /// Whether the run is over.
    pub fn is_over(&self) -> (over: bool)
        ensures
            over == self.is_terminal(),
    {
        match self {
            Stage::Committed { .. } => true,
            Stage::Failed { .. } => true,
            _ => false,
        }
    }

    /// Takes `event` and moves on, or returns `None` when the stage does not
    /// wait for such an event.
    pub fn advance(&self, event: Event) -> (following: Option<Stage>)
        ensures
            following == self.next(event),
    {
        if self.is_over() {
            return None;
        }
        match event {
            Event::Failed { error } => Some(Stage::Failed { error }),
            Event::Configured { location_present } => match self {
                Stage::Unconfigured => if location_present {
                    Some(Stage::Located)
                } else {
                    Some(Stage::Failed { error: PipelineError::Configuration })
                },
                _ => None,
            },
            Event::Probed { marker_present } => match self {
                Stage::Located => if marker_present {
                    Some(Stage::Found)
                } else {
                    Some(Stage::Uninitialized)
                },
                _ => None,
            },
            Event::TableOpened => match self {
                Stage::Found => Some(Stage::Opened),
                _ => None,
            },
            Event::TableCreated => match self {
                Stage::Uninitialized => Some(Stage::Bootstrapped),
                _ => None,
            },
            Event::BatchBuilt => match self {
                Stage::Opened => Some(Stage::BatchBuilt),
                Stage::Bootstrapped => Some(Stage::BatchBuilt),
                _ => None,
            },
            Event::BatchStaged => match self {
                Stage::BatchBuilt => Some(Stage::Staged),
                _ => None,
            },
            Event::Committed { files } => match self {
                Stage::Staged => Some(Stage::Committed { files }),
                _ => None,
            },
        }
    }
}

/// The event that the outcome of a conversion amounts to: a batch was built,
/// or the run fails for a schema mismatch.
pub open spec fn conversion_event(converted: bool) -> Event {
    if converted {
        Event::BatchBuilt
    } else {
        Event::Failed { error: PipelineError::SchemaMismatch }
    }
}

/// Reports the outcome of a conversion to the machine.
pub fn report_conversion(outcome: &Result<ColumnarBatch, BatchError>) -> (event: Event)
    ensures
        event == conversion_event(outcome is Ok),
{
    match outcome {
        Ok(_) => Event::BatchBuilt,
        Err(_) => Event::Failed { error: PipelineError::SchemaMismatch },
    }
}

/// Every step leads to a stage of higher rank, so no stage is entered twice.
pub proof fn lemma_steps_advance(stage: Stage, event: Event)
    requires
        stage.next(event) is Some,
    ensures
        stage.next(event).unwrap().rank() > stage.rank(),
{
}

/// A run that is over takes no further event, and no other stage is final.
pub proof fn lemma_terminal_stages(stage: Stage)
    ensures
        stage.is_terminal() <==> forall|event: Event| stage.next(event) is None,
        stage.is_terminal() <==> (stage.pending() is Finish || stage.pending() is Abort),
{
    if !stage.is_terminal() {
        assert(stage.next(Event::Failed { error: PipelineError::Io }) is Some);
    }
}

/// A failure at any stage before the end is final and is handed on as it is.
pub proof fn lemma_failures_are_fatal(stage: Stage, error: PipelineError)
    requires
        !stage.is_terminal(),
    ensures
        stage.next(Event::Failed { error }) == Some(Stage::Failed { error }),
        (Stage::Failed { error }).pending() == (Action::Abort { error }),
        (Stage::Failed { error }).is_terminal(),
{
}

/// A table is created only where the marker was found missing, and then
/// exactly once: creation is pending in one stage only, which is entered
/// only from a located run by a probe that found no marker.
pub proof fn lemma_creation_needs_missing_marker(stage: Stage, event: Event)
    ensures
        stage.pending() == Action::CreateTable <==> stage == Stage::Uninitialized,
        stage.next(event) == Some(Stage::Uninitialized) <==> (stage == Stage::Located && event
            == Event::Probed { marker_present: false }),
{
}

/// Nothing is committed before a batch was built and staged: the commit is
/// pending in one stage only, which is entered only by staging a built batch.
pub proof fn lemma_commit_follows_staging(stage: Stage, event: Event)
    ensures
        stage.pending() == Action::FlushAndCommit <==> stage == Stage::Staged,
        stage.next(event) == Some(Stage::Staged) <==> (stage == Stage::BatchBuilt && event
            == Event::BatchStaged),
        stage.next(event) == Some(Stage::BatchBuilt) <==> ((stage == Stage::Opened || stage
            == Stage::Bootstrapped) && event == Event::BatchBuilt),
{
}

/// The count a finished run reports is the one the commit reported.
pub proof fn lemma_commit_reports_files(files: usize)
    ensures
        Stage::Staged.next(Event::Committed { files }) == Some(Stage::Committed { files }),
        (Stage::Committed { files }).pending() == (Action::Finish { files }),
{
}

} // verus!
