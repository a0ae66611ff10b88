//! One execution attempt of a pipeline.

use vstd::prelude::*;

verus! {

/// One task object of a pipeline, as it enters a status record.
#[derive(Debug, Clone)]
pub struct PipelineTasks {
    /// The pipeline that owns the task.
    pub pipeline_id: String,
    /// The identifier of the task object within its pipeline.
    pub task_id: String,
    /// The name of the task object; may be empty.
    pub task_name: String,
    /// The canonical status token, or the empty text where the service
    /// reported no status or one outside the canonical set.
    pub status: String,
    /// Free-text detail on the attempt; empty where the service gave none.
    pub attempt_status: String,
}

/// The content of a task as plain text.
#[verifier::ext_equal]
pub struct TaskView {
    pub pipeline_id: Seq<char>,
    pub task_id: Seq<char>,
    pub task_name: Seq<char>,
    pub status: Seq<char>,
    pub attempt_status: Seq<char>,
}

impl View for PipelineTasks {
    type V = TaskView;

    open spec fn view(&self) -> TaskView {
        TaskView {
            pipeline_id: self.pipeline_id@,
            task_id: self.task_id@,
            task_name: self.task_name@,
            status: self.status@,
            attempt_status: self.attempt_status@,
        }
    }
}

impl DeepView for PipelineTasks {
    type V = TaskView;

    open spec fn deep_view(&self) -> TaskView {
        self@
    }
}

} // verus!
