//! The finished status record of one pipeline.

use crate::datapipelines::pipeline_task_status::PipelineTaskStatus;
use crate::datapipelines::pipeline_tasks::{PipelineTasks, TaskView};
use crate::datapipelines::run_time::{
    convert_to_date_time, elapsed_text, run_time_of, seconds_between, Timestamp,
};
use crate::text::{decimal_text, same_text};
use crate::utilities::{field_texts, get_or_blank, text_or_blank};
use vstd::hash_map::StringHashMap;
use vstd::prelude::*;

verus! {

/// The status of one pipeline at the instant of the query.
#[derive(Debug, Clone)]
pub struct Pipeline {
    pub id: String,
    pub name: String,
    pub account_id: String,
    pub health_status: String,
    pub pipeline_state: String,
    /// When the pipeline last ran; absent where the service gave no
    /// well-formed timestamp.
    pub latest_run_time: Option<Timestamp>,
    /// When the pipeline runs next; absent like `latest_run_time`.
    pub next_run_time: Option<Timestamp>,
    pub scheduled_period: String,
    /// For a scheduled pipeline, the seconds since its last run in base 10.
    pub since_last_run_time: Option<String>,
    /// The tasks of the pipeline that passed the status filter, in the
    /// order in which the service listed them.
    pub tasks: Vec<PipelineTasks>,
}

/// The content of a status record as plain values.
#[verifier::ext_equal]
pub struct PipelineView {
    pub id: Seq<char>,
    pub name: Seq<char>,
    pub account_id: Seq<char>,
    pub health_status: Seq<char>,
    pub pipeline_state: Seq<char>,
    pub latest_run_time: Option<Timestamp>,
    pub next_run_time: Option<Timestamp>,
    pub scheduled_period: Seq<char>,
    pub since_last_run_time: Option<Seq<char>>,
    pub tasks: Seq<TaskView>,
}

impl View for Pipeline {
    type V = PipelineView;

    open spec fn view(&self) -> PipelineView {
        PipelineView {
            id: self.id@,
            name: self.name@,
            account_id: self.account_id@,
            health_status: self.health_status@,
            pipeline_state: self.pipeline_state@,
            latest_run_time: self.latest_run_time,
            next_run_time: self.next_run_time,
            scheduled_period: self.scheduled_period@,
            since_last_run_time: self.since_last_run_time.deep_view(),
            tasks: self.tasks.deep_view(),
        }
    }
}

impl DeepView for Pipeline {
    type V = PipelineView;

    open spec fn deep_view(&self) -> PipelineView {
        self@
    }
}

/// A record exists only for a pipeline whose identifier, name and health
/// status are all present and not blank.
pub open spec fn has_identity(fields: Map<Seq<char>, Seq<char>>) -> bool {
    &&& text_or_blank("@id"@, fields).len() > 0
    &&& text_or_blank("name"@, fields).len() > 0
    &&& text_or_blank("@healthStatus"@, fields).len() > 0
}

/// The record that the metadata `fields` of a pipeline, its `tasks`, its two
/// run times as read from the fields, and the instant of the query make up;
/// `None` for a pipeline without identity.
pub open spec fn record_of(
    tasks: Seq<TaskView>,
    fields: Map<Seq<char>, Seq<char>>,
    latest_run_time: Option<Timestamp>,
    next_run_time: Option<Timestamp>,
    query_time: Timestamp,
) -> Option<PipelineView> {
    if has_identity(fields) {
        Some(
            PipelineView {
                id: text_or_blank("@id"@, fields),
                name: text_or_blank("name"@, fields),
                account_id: text_or_blank("@accountId"@, fields),
                health_status: text_or_blank("@healthStatus"@, fields),
                pipeline_state: text_or_blank("@pipelineState"@, fields),
                latest_run_time,
                next_run_time,
                scheduled_period: text_or_blank("@scheduledPeriod"@, fields),
                since_last_run_time: if text_or_blank("@pipelineState"@, fields) == "SCHEDULED"@ {
                    elapsed_text(query_time, latest_run_time)
                } else {
                    None
                },
                tasks,
            },
        )
    } else {
        None
    }
}

/// The record of a pipeline, with both run times read from its fields.
pub open spec fn created_record(
    tasks: Seq<TaskView>,
    fields: Map<Seq<char>, Seq<char>>,
    query_time: Timestamp,
) -> Option<PipelineView> {
    record_of(
        tasks,
        fields,
        run_time_of(text_or_blank("@latestRunTime"@, fields)),
        run_time_of(text_or_blank("@nextRunTime"@, fields)),
        query_time,
    )
}

/// Whether one of the tasks carries a status of the building set.
pub open spec fn any_building(tasks: Seq<TaskView>) -> bool {
    exists|i: int| 0 <= i < tasks.len() && PipelineTaskStatus::building_token(#[trigger] tasks[i].status)
}

impl Pipeline {
    /// Builds the record of a pipeline from its metadata fields, reading the
    /// two run times from their timestamp texts.
    pub fn create(
        tasks: Vec<PipelineTasks>,
        fields: StringHashMap<String>,
        query_run_time: Timestamp,
    ) -> (pipeline: Option<Pipeline>)
        ensures
            pipeline.deep_view() == created_record(
                tasks.deep_view(),
                field_texts(fields@),
                query_run_time,
            ),
            pipeline matches Some(record) ==> {
                &&& !fields@.contains_key("@latestRunTime"@) ==> record.latest_run_time is None
                    && record.since_last_run_time is None
                &&& !fields@.contains_key("@nextRunTime"@) ==> record.next_run_time is None
            },
    {
        let latest_run_time = get_or_blank("@latestRunTime", &fields);
        let next_run_time = get_or_blank("@nextRunTime", &fields);
        Pipeline::assemble(
            tasks,
            &fields,
            convert_to_date_time(latest_run_time.as_str()),
            convert_to_date_time(next_run_time.as_str()),
            query_run_time,
        )
    }

    /// Builds the record of a pipeline from its metadata fields and its two
    /// run times, where these have already been read.
    pub fn assemble(
        tasks: Vec<PipelineTasks>,
        fields: &StringHashMap<String>,
        latest_run_time: Option<Timestamp>,
        next_run_time: Option<Timestamp>,
        query_run_time: Timestamp,
    ) -> (pipeline: Option<Pipeline>)
        ensures
            pipeline.deep_view() == record_of(
                tasks.deep_view(),
                field_texts(fields@),
                latest_run_time,
                next_run_time,
                query_run_time,
            ),
    {
        let pipeline_state = get_or_blank("@pipelineState", fields);
        let since_last_run_time = if same_text(pipeline_state.as_str(), "SCHEDULED") {
            seconds_between(&query_run_time, latest_run_time)
        } else {
            None
        };
        let pipeline = Pipeline {
            id: get_or_blank("@id", fields),
            name: get_or_blank("name", fields),
            account_id: get_or_blank("@accountId", fields),
            health_status: get_or_blank("@healthStatus", fields),
            pipeline_state,
            latest_run_time,
            next_run_time,
            scheduled_period: get_or_blank("@scheduledPeriod", fields),
            since_last_run_time,
            tasks,
        };
        if pipeline.id.as_str().is_empty() || pipeline.name.as_str().is_empty()
            || pipeline.health_status.as_str().is_empty() {
            None
        } else {
            Some(pipeline)
        }
    }

    /// Whether at least one task of the pipeline is still in progress.
    pub fn is_building(&self) -> (building: bool)
        ensures
            building == any_building(self@.tasks),
    {
        let mut i: usize = 0;
        while i < self.tasks.len()
            invariant
                i <= self.tasks@.len(),
                forall|j: int|
                    0 <= j < i ==> !PipelineTaskStatus::building_token(
                        #[trigger] self.tasks.deep_view()[j].status,
                    ),
            decreases self.tasks@.len() - i,
        {
            if PipelineTaskStatus::is_building(self.tasks[i].status.as_str()) {
                assert(PipelineTaskStatus::building_token(self.tasks.deep_view()[i as int].status));
                return true;
            }
            i += 1;
        }
        false
    }

    /// Whether the service reports the pipeline as healthy.
    pub fn is_healthy(&self) -> (healthy: bool)
        ensures
            healthy == (self@.health_status == "HEALTHY"@),
    {
        same_text(self.health_status.as_str(), "HEALTHY")
    }
}

/// A record is built exactly for the field mappings that hold a non-blank
/// identifier, name and health status. Where one of the three keys is absent
/// nothing is built.
pub proof fn lemma_record_needs_identity(
    tasks: Seq<TaskView>,
    fields: Map<Seq<char>, Seq<char>>,
    query_time: Timestamp,
)
    ensures
        created_record(tasks, fields, query_time) is Some <==> {
            &&& fields.contains_key("@id"@) && fields["@id"@].len() > 0
            &&& fields.contains_key("name"@) && fields["name"@].len() > 0
            &&& fields.contains_key("@healthStatus"@) && fields["@healthStatus"@].len() > 0
        },
        !fields.contains_key("@id"@) || !fields.contains_key("name"@) || !fields.contains_key(
            "@healthStatus"@,
        ) ==> created_record(tasks, fields, query_time) is None,
{
}

/// The seconds since the last run are reported exactly for a pipeline in
/// state `SCHEDULED` whose last run time is well formed, and they are the
/// difference of the two instants in base 10.
pub proof fn lemma_since_last_run_time(
    tasks: Seq<TaskView>,
    fields: Map<Seq<char>, Seq<char>>,
    query_time: Timestamp,
)
    requires
        created_record(tasks, fields, query_time) is Some,
    ensures
        ({
            let record = created_record(tasks, fields, query_time)->0;
            &&& record.since_last_run_time is Some <==> record.pipeline_state == "SCHEDULED"@
                && record.latest_run_time is Some
            &&& record.since_last_run_time matches Some(elapsed) ==> elapsed == decimal_text(
                query_time.unix_seconds - record.latest_run_time->0.unix_seconds,
            )
        }),
{
}

} // verus!
