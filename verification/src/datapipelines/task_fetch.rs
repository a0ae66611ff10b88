//! Fetching the tasks of one pipeline: the identifiers of its attempt
//! objects are queried, the objects are described, and those in an allowed
//! state become tasks.

use crate::datapipelines::pipeline_task_status::PipelineTaskStatus;
use crate::datapipelines::pipeline_tasks::{PipelineTasks, TaskView};
use crate::datapipelines::service::{
    convert, field_map, ObjectView, PipelineObject, Reply, ReplyView, Request, RequestView,
};
use crate::text::copy_texts;
use crate::utilities::{get_or_blank, text_or_blank};
use vstd::prelude::*;

verus! {

/// The sphere of a pipeline in which its execution attempts live.
pub const ATTEMPT_SPHERE: &'static str = "ATTEMPT";

/// The status of a task object as a canonical token: the token that its
/// `@status` field holds, or the empty text where the field is absent or
/// holds anything else.
pub open spec fn status_token(fields: Map<Seq<char>, Seq<char>>) -> Seq<char> {
    match PipelineTaskStatus::of_token(text_or_blank("@status"@, fields)) {
        Some(status) => status.token(),
        None => Seq::empty(),
    }
}

/// The status filter: with no state allowed in particular every object
/// passes; otherwise an object passes if its status reads as one of the
/// allowed states.
pub open spec fn passes(allowed: Seq<PipelineTaskStatus>, fields: Map<Seq<char>, Seq<char>>) -> bool {
    allowed.len() == 0 || match PipelineTaskStatus::of_token(text_or_blank("@status"@, fields)) {
        Some(status) => allowed.contains(status),
        None => false,
    }
}

/// The task that a described object of the pipeline `pipeline_id` becomes.
pub open spec fn task_of(pipeline_id: Seq<char>, object: ObjectView) -> TaskView {
    let fields = field_map(object.fields);
    TaskView {
        pipeline_id,
        task_id: object.id,
        task_name: object.name,
        status: status_token(fields),
        attempt_status: text_or_blank("attemptStatus"@, fields),
    }
}

/// The tasks of the objects that pass the status filter, in the order of the
/// objects.
pub open spec fn kept_tasks(
    pipeline_id: Seq<char>,
    objects: Seq<ObjectView>,
    allowed: Seq<PipelineTaskStatus>,
) -> Seq<TaskView>
    decreases objects.len(),
{
    if objects.len() == 0 {
        Seq::empty()
    } else {
        let earlier = kept_tasks(pipeline_id, objects.drop_last(), allowed);
        if passes(allowed, field_map(objects.last().fields)) {
            earlier.push(task_of(pipeline_id, objects.last()))
        } else {
            earlier
        }
    }
}

/// Whether `status` is one of `statuses`.
pub fn contains_status(statuses: &Vec<PipelineTaskStatus>, status: PipelineTaskStatus) -> (found:
    bool)
    ensures
        found == statuses@.contains(status),
{
    let mut i: usize = 0;
    while i < statuses.len()
        invariant
            i <= statuses@.len(),
            forall|j: int| 0 <= j < i ==> statuses@[j] != status,
        decreases statuses@.len() - i,
    {
        if statuses[i] == status {
            return true;
        }
        i += 1;
    }
    false
}

/// Turns the described objects of a pipeline into its tasks, keeping those
/// that pass the status filter.
pub fn tasks_of_objects(
    pipeline_id: &str,
    objects: &Vec<PipelineObject>,
    allowed_statuses: &Vec<PipelineTaskStatus>,
) -> (tasks: Vec<PipelineTasks>)
    ensures
        tasks.deep_view() == kept_tasks(pipeline_id@, objects.deep_view(), allowed_statuses@),
{
    let mut tasks: Vec<PipelineTasks> = Vec::new();
    let mut i: usize = 0;
    assert(tasks.deep_view() =~= kept_tasks(
        pipeline_id@,
        objects.deep_view().take(0),
        allowed_statuses@,
    ));
    while i < objects.len()
        invariant
            i <= objects@.len(),
            tasks.deep_view() == kept_tasks(
                pipeline_id@,
                objects.deep_view().take(i as int),
                allowed_statuses@,
            ),
        decreases objects@.len() - i,
    {
        let ghost before = tasks.deep_view();
        let object = &objects[i];
        let fields = convert(&object.fields);
        let status_text = get_or_blank("@status", &fields);
        let parsed = PipelineTaskStatus::value(status_text.as_str());
        let (task_status, allowed): (&'static str, bool) = match parsed {
            Some(status) => (status.as_str(), contains_status(allowed_statuses, status)),
            None => ("", false),
        };
        proof {
            reveal_strlit("");
            assert(""@ =~= Seq::<char>::empty());
        }
        if allowed || allowed_statuses.len() == 0 {
            let task = PipelineTasks {
                pipeline_id: pipeline_id.to_owned(),
                task_id: object.id.clone(),
                task_name: object.name.clone(),
                status: task_status.to_owned(),
                attempt_status: get_or_blank("attemptStatus", &fields),
            };
            assert(task@ == task_of(pipeline_id@, object@));
            tasks.push(task);
            assert(tasks.deep_view() =~= before.push(task_of(pipeline_id@, object@)));
        }
        proof {
            let all = objects.deep_view();
            assert(all.take(i + 1).drop_last() =~= all.take(i as int));
            assert(all.take(i + 1).last() == object@);
        }
        i += 1;
    }
    assert(objects.deep_view().take(objects@.len() as int) =~= objects.deep_view());
    tasks
}

/// Which reply a fetch waits for.
#[derive(PartialEq, Eq, Structural, Debug, Clone, Copy)]
pub enum FetchStage {
    /// The identifiers of the attempt objects have been asked for.
    AwaitingIds,
    /// The objects have been asked for.
    AwaitingObjects,
    /// The fetch has ended.
    Done,
}

/// The state of the fetch of the tasks of one pipeline.
#[derive(Debug, Clone)]
pub struct TaskFetch {
    pub pipeline_id: String,
    /// The states that a task may be in to be kept; empty to keep all.
    pub allowed_statuses: Vec<PipelineTaskStatus>,
    pub stage: FetchStage,
    /// The identifiers that the query found.
    pub object_ids: Vec<String>,
    /// The tasks of the pipeline, once the fetch has ended.
    pub tasks: Vec<PipelineTasks>,
    /// Whether the objects could not be described: `tasks` is empty then
    /// because the call failed, not because the pipeline has no tasks.
    pub failed: bool,
}

/// The state of a fetch as plain values.
#[verifier::ext_equal]
pub struct TaskFetchView {
    pub pipeline_id: Seq<char>,
    pub allowed_statuses: Seq<PipelineTaskStatus>,
    pub stage: FetchStage,
    pub object_ids: Seq<Seq<char>>,
    pub tasks: Seq<TaskView>,
    pub failed: bool,
}

impl View for TaskFetch {
    type V = TaskFetchView;

    open spec fn view(&self) -> TaskFetchView {
        TaskFetchView {
            pipeline_id: self.pipeline_id@,
            allowed_statuses: self.allowed_statuses@,
            stage: self.stage,
            object_ids: self.object_ids.deep_view(),
            tasks: self.tasks.deep_view(),
            failed: self.failed,
        }
    }
}

impl DeepView for TaskFetch {
    type V = TaskFetchView;

    open spec fn deep_view(&self) -> TaskFetchView {
        self@
    }
}

/// A fetch begins by asking for the identifiers of the attempt objects.
pub open spec fn fetch_start(
    pipeline_id: Seq<char>,
    allowed_statuses: Seq<PipelineTaskStatus>,
) -> TaskFetchView {
    TaskFetchView {
        pipeline_id,
        allowed_statuses,
        stage: FetchStage::AwaitingIds,
        object_ids: Seq::empty(),
        tasks: Seq::empty(),
        failed: false,
    }
}

/// The call that a fetch waits for.
pub open spec fn fetch_request(fetch: TaskFetchView) -> Option<RequestView> {
    match fetch.stage {
        FetchStage::AwaitingIds => Some(
            RequestView::QueryObjects { pipeline_id: fetch.pipeline_id, sphere: ATTEMPT_SPHERE@ },
        ),
        FetchStage::AwaitingObjects => Some(
            RequestView::DescribeObjects {
                pipeline_id: fetch.pipeline_id,
                object_ids: fetch.object_ids,
            },
        ),
        FetchStage::Done => None,
    }
}

/// What a reply does to a fetch. A query that fails or reports no
/// identifiers leaves none, and the fetch goes on to describe them all the
/// same. Described objects become the tasks; a failed describe call leaves no
/// tasks and is recorded as a failure.
pub open spec fn fetch_step(fetch: TaskFetchView, reply: ReplyView) -> TaskFetchView {
    match fetch.stage {
        FetchStage::AwaitingIds => TaskFetchView {
            stage: FetchStage::AwaitingObjects,
            object_ids: match reply {
                ReplyView::ObjectIds(Some(ids)) => ids,
                _ => Seq::empty(),
            },
            ..fetch
        },
        FetchStage::AwaitingObjects => match reply {
            ReplyView::Objects(objects) => TaskFetchView {
                stage: FetchStage::Done,
                tasks: kept_tasks(fetch.pipeline_id, objects, fetch.allowed_statuses),
                ..fetch
            },
            _ => TaskFetchView {
                stage: FetchStage::Done,
                tasks: Seq::empty(),
                failed: true,
                ..fetch
            },
        },
        FetchStage::Done => fetch,
    }
}

impl TaskFetch {
    /// Begins the fetch of the tasks of the pipeline `pipeline_id`.
    pub fn start(pipeline_id: String, allowed_statuses: Vec<PipelineTaskStatus>) -> (fetch:
        TaskFetch)
        ensures
            fetch@ == fetch_start(pipeline_id@, allowed_statuses@),
    {
        let fetch = TaskFetch {
            pipeline_id,
            allowed_statuses,
            stage: FetchStage::AwaitingIds,
            object_ids: Vec::new(),
            tasks: Vec::new(),
            failed: false,
        };
        assert(fetch.object_ids.deep_view() =~= Seq::empty());
        assert(fetch.tasks.deep_view() =~= Seq::empty());
        fetch
    }

    /// Whether the fetch still waits for a reply.
    pub fn pending(&self) -> (pending: bool)
        ensures
            pending == fetch_request(self@) is Some,
    {
        match self.stage {
            FetchStage::Done => false,
            _ => true,
        }
    }

    /// The call to make next; `None` once the fetch has ended.
    pub fn request(&self) -> (request: Option<Request>)
        ensures
            request.deep_view() == fetch_request(self@),
    {
        match self.stage {
            FetchStage::AwaitingIds => Some(
                Request::QueryObjects {
                    pipeline_id: self.pipeline_id.clone(),
                    sphere: ATTEMPT_SPHERE.to_owned(),
                },
            ),
            FetchStage::AwaitingObjects => {
                let object_ids = copy_texts(&self.object_ids, 0, self.object_ids.len());
                assert(self.object_ids.deep_view().subrange(0, self.object_ids@.len() as int)
                    =~= self.object_ids.deep_view());
                Some(
                    Request::DescribeObjects { pipeline_id: self.pipeline_id.clone(), object_ids },
                )
            },
            FetchStage::Done => None,
        }
    }

    /// Takes in the reply to the call that `request` asked for.
    pub fn receive(self, reply: Reply) -> (next: TaskFetch)
        ensures
            next@ == fetch_step(self@, reply@),
    {
        match self.stage {
            FetchStage::AwaitingIds => {
                let object_ids: Vec<String> = match reply {
                    Reply::ObjectIds(Some(ids)) => ids,
                    _ => {
                        let none: Vec<String> = Vec::new();
                        assert(none.deep_view() =~= Seq::empty());
                        none
                    },
                };
                TaskFetch { stage: FetchStage::AwaitingObjects, object_ids, ..self }
            },
            FetchStage::AwaitingObjects => match reply {
                Reply::Objects(objects) => {
                    let tasks = tasks_of_objects(
                        self.pipeline_id.as_str(),
                        &objects,
                        &self.allowed_statuses,
                    );
                    TaskFetch { stage: FetchStage::Done, tasks, ..self }
                },
                _ => {
                    let tasks: Vec<PipelineTasks> = Vec::new();
                    assert(tasks.deep_view() =~= Seq::empty());
                    TaskFetch { stage: FetchStage::Done, tasks, failed: true, ..self }
                },
            },
            FetchStage::Done => self,
        }
    }
}

/// A fetch takes two calls: the query for the attempt objects of the
/// pipeline, and the description of exactly the objects that the query
/// found. It ends with the tasks of the described objects that pass the
/// status filter, or with none where the objects could not be described.
pub proof fn lemma_fetch_takes_two_calls(
    pipeline_id: Seq<char>,
    allowed: Seq<PipelineTaskStatus>,
    first: ReplyView,
    second: ReplyView,
)
    ensures
        ({
            let begun = fetch_start(pipeline_id, allowed);
            let queried = fetch_step(begun, first);
            let ended = fetch_step(queried, second);
            &&& fetch_request(begun) == Some(
                RequestView::QueryObjects { pipeline_id, sphere: ATTEMPT_SPHERE@ },
            )
            &&& fetch_request(queried) == Some(
                RequestView::DescribeObjects {
                    pipeline_id,
                    object_ids: match first {
                        ReplyView::ObjectIds(Some(ids)) => ids,
                        _ => Seq::empty(),
                    },
                },
            )
            &&& fetch_request(ended) is None
            &&& ended.tasks == match second {
                ReplyView::Objects(objects) => kept_tasks(pipeline_id, objects, allowed),
                _ => Seq::empty(),
            }
            &&& ended.failed == !(second is Objects)
        }),
{
}

/// Every task that is kept under a filter with allowed states carries the
/// token of one of these states.
pub proof fn lemma_kept_tasks_are_allowed(
    pipeline_id: Seq<char>,
    objects: Seq<ObjectView>,
    allowed: Seq<PipelineTaskStatus>,
    i: int,
)
    requires
        allowed.len() > 0,
        0 <= i < kept_tasks(pipeline_id, objects, allowed).len(),
    ensures
        ({
            let task = kept_tasks(pipeline_id, objects, allowed)[i];
            &&& task.pipeline_id == pipeline_id
            &&& exists|k: int| 0 <= k < allowed.len() && task.status == (#[trigger] allowed[k]).token()
        }),
    decreases objects.len(),
{
    if objects.len() > 0 {
        let earlier = kept_tasks(pipeline_id, objects.drop_last(), allowed);
        if i < earlier.len() {
            lemma_kept_tasks_are_allowed(pipeline_id, objects.drop_last(), allowed, i);
        } else {
            let fields = field_map(objects.last().fields);
            let status = PipelineTaskStatus::of_token(text_or_blank("@status"@, fields))->0;
            let k = choose|k: int| 0 <= k < allowed.len() && allowed[k] == status;
            assert(allowed[k].token() == status_token(fields));
        }
    }
}

/// With no state allowed in particular, every described object becomes a
/// task.
pub proof fn lemma_empty_filter_keeps_all(pipeline_id: Seq<char>, objects: Seq<ObjectView>)
    ensures
        kept_tasks(pipeline_id, objects, Seq::empty()) == objects.map_values(
            |object: ObjectView| task_of(pipeline_id, object),
        ),
    decreases objects.len(),
{
    let mapped = objects.map_values(|object: ObjectView| task_of(pipeline_id, object));
    if objects.len() == 0 {
        assert(kept_tasks(pipeline_id, objects, Seq::empty()) =~= mapped);
    } else {
        lemma_empty_filter_keeps_all(pipeline_id, objects.drop_last());
        assert(kept_tasks(pipeline_id, objects, Seq::empty()) =~= mapped);
    }
}

} // verus!
