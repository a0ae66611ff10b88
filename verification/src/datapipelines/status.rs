//! The status run: every pipeline is listed, described, passed through the
//! name filter, and, where it stays, given its tasks and turned into a
//! record.

use crate::datapipelines::describing::{
    batch_count, batch_descriptions, describing_request, describing_run, describing_start,
    describing_step, lemma_describing_progress, some_call_failed, Describing, DescribingView,
};
use crate::datapipelines::listing::{
    lemma_listing_collects_all_pages, lemma_listing_follows_cursor, listing_request, listing_run,
    listing_start, listing_step, page_entries, page_of, pages_with_successor, IdListing,
    IdListingView,
};
use crate::datapipelines::pipeline::{created_record, Pipeline, PipelineView};
use crate::datapipelines::pipeline_tasks::TaskView;
use crate::datapipelines::pipeline_task_status::PipelineTaskStatus;
use crate::datapipelines::run_time::Timestamp;
use crate::datapipelines::service::{
    convert, field_map, keeps, keeps_pipeline, pipeline_ids, present_ids, DescriptionView,
    PipelineDescription, Reply, ReplyView, Request, RequestView,
};
use crate::datapipelines::task_fetch::{
    fetch_request, fetch_start, fetch_step, kept_tasks, TaskFetch, TaskFetchView,
};
use crate::text::copy_texts;
use vstd::prelude::*;

verus! {

/// What a status run is busy with.
#[derive(Debug, Clone)]
pub enum Stage {
    /// Enumerating the pipelines.
    Listing(IdListing),
    /// Resolving the identifiers of the pipelines to their metadata.
    Describing(Describing),
    /// Fetching the tasks of the pipeline under `position`.
    Fetching(TaskFetch),
    /// The run has ended; `records` is its result.
    Finished,
}

/// What a status run is busy with, as plain values.
#[verifier::ext_equal]
pub enum StageView {
    Listing(IdListingView),
    Describing(DescribingView),
    Fetching(TaskFetchView),
    Finished,
}

impl View for Stage {
    type V = StageView;

    open spec fn view(&self) -> StageView {
        match self {
            Stage::Listing(listing) => StageView::Listing(listing@),
            Stage::Describing(describing) => StageView::Describing(describing@),
            Stage::Fetching(fetch) => StageView::Fetching(fetch@),
            Stage::Finished => StageView::Finished,
        }
    }
}

/// The state of one status run.
#[derive(Debug, Clone)]
pub struct StatusRun {
    /// The pipeline names that the filter goes by.
    pub pipeline_name_filters: Vec<String>,
    /// `include` to keep the pipelines named by the filter; anything else to
    /// keep all others.
    pub filter_operation: String,
    /// The instant of the query, one for the whole run.
    pub query_time: Timestamp,
    pub stage: Stage,
    /// The metadata of all pipelines, once resolved.
    pub descriptions: Vec<PipelineDescription>,
    /// The place in `descriptions` of the pipeline whose tasks are fetched.
    pub position: usize,
    /// The records built so far, in the order of `descriptions`.
    pub records: Vec<Pipeline>,
}

/// The state of a status run as plain values.
#[verifier::ext_equal]
pub struct StatusRunView {
    pub pipeline_name_filters: Seq<Seq<char>>,
    pub filter_operation: Seq<char>,
    pub query_time: Timestamp,
    pub stage: StageView,
    pub descriptions: Seq<DescriptionView>,
    pub position: nat,
    pub records: Seq<PipelineView>,
}

impl View for StatusRun {
    type V = StatusRunView;

    open spec fn view(&self) -> StatusRunView {
        StatusRunView {
            pipeline_name_filters: self.pipeline_name_filters.deep_view(),
            filter_operation: self.filter_operation@,
            query_time: self.query_time,
            stage: self.stage@,
            descriptions: self.descriptions.deep_view(),
            position: self.position as nat,
            records: self.records.deep_view(),
        }
    }
}

/// The states in which a task counts for the report: those of a task that
/// is still in progress.
pub open spec fn allowed_status_query() -> Seq<PipelineTaskStatus> {
    seq![
        PipelineTaskStatus::Running,
        PipelineTaskStatus::WaitingOnDependencies,
        PipelineTaskStatus::Creating,
        PipelineTaskStatus::WaitingForRunner,
    ]
}

/// A run begins with the enumeration of the pipelines.
pub open spec fn status_start(
    pipeline_name_filters: Seq<Seq<char>>,
    filter_operation: Seq<char>,
    query_time: Timestamp,
) -> StatusRunView {
    StatusRunView {
        pipeline_name_filters,
        filter_operation,
        query_time,
        stage: StageView::Listing(listing_start()),
        descriptions: Seq::empty(),
        position: 0,
        records: Seq::empty(),
    }
}

/// The call that a run waits for; `None` once it has ended.
pub open spec fn status_request(run: StatusRunView) -> Option<RequestView> {
    match run.stage {
        StageView::Listing(listing) => listing_request(listing),
        StageView::Describing(describing) => describing_request(describing),
        StageView::Fetching(fetch) => fetch_request(fetch),
        StageView::Finished => None,
    }
}

/// The place of the first pipeline from `from` on whose name passes the
/// filter; the number of pipelines where none does.
pub open spec fn next_kept(
    descriptions: Seq<DescriptionView>,
    filters: Seq<Seq<char>>,
    operation: Seq<char>,
    from: nat,
) -> nat
    decreases descriptions.len() - from,
{
    if from >= descriptions.len() {
        descriptions.len()
    } else if keeps(descriptions[from as int].name, filters, operation) {
        from
    } else {
        next_kept(descriptions, filters, operation, from + 1)
    }
}

/// The run as it turns to the first pipeline from `from` on that passes the
/// name filter and begins to fetch its tasks; it ends where no pipeline is
/// left.
pub open spec fn fetching_from(run: StatusRunView, from: nat) -> StatusRunView {
    let position = next_kept(
        run.descriptions,
        run.pipeline_name_filters,
        run.filter_operation,
        from,
    );
    if position < run.descriptions.len() {
        StatusRunView {
            position,
            stage: StageView::Fetching(
                fetch_start(run.descriptions[position as int].pipeline_id, allowed_status_query()),
            ),
            ..run
        }
    } else {
        StatusRunView { position, stage: StageView::Finished, ..run }
    }
}

/// The run as it goes on with a resolution: it waits for the next batch,
/// or, with every identifier covered, takes what was collected as the
/// metadata of all pipelines and turns to the first of them.
pub open spec fn describing_from(run: StatusRunView, describing: DescribingView) -> StatusRunView {
    if describing_request(describing) is Some {
        StatusRunView { stage: StageView::Describing(describing), ..run }
    } else {
        fetching_from(StatusRunView { descriptions: describing.collected, ..run }, 0)
    }
}

/// What a reply does to a run.
///
/// While the pipelines are enumerated, the reply goes to the enumeration;
/// once that has ended, the identifiers it collected are resolved. While they
/// are resolved, the reply goes to the resolution. While tasks are fetched,
/// the reply goes to the fetch; once that has ended, the record of the
/// pipeline is built from its tasks, its metadata and the instant of the
/// query, appended if there is one, and the run turns to the next pipeline
/// that passes the name filter.
pub open spec fn status_step(run: StatusRunView, reply: ReplyView) -> StatusRunView {
    match run.stage {
        StageView::Listing(listing) => {
            let listing = listing_step(listing, reply);
            if listing_request(listing) is Some {
                StatusRunView { stage: StageView::Listing(listing), ..run }
            } else {
                describing_from(run, describing_start(present_ids(listing.collected)))
            }
        },
        StageView::Describing(describing) => describing_from(
            run,
            describing_step(describing, reply),
        ),
        StageView::Fetching(fetch) => {
            if run.position >= run.descriptions.len() {
                StatusRunView { stage: StageView::Finished, ..run }
            } else {
                let fetch = fetch_step(fetch, reply);
                if fetch_request(fetch) is Some {
                    StatusRunView { stage: StageView::Fetching(fetch), ..run }
                } else {
                    let record = created_record(
                        fetch.tasks,
                        field_map(run.descriptions[run.position as int].fields),
                        run.query_time,
                    );
                    let records = match record {
                        Some(record) => run.records.push(record),
                        None => run.records,
                    };
                    fetching_from(StatusRunView { records, ..run }, run.position + 1)
                }
            }
        },
        StageView::Finished => run,
    }
}

/// Begins a status run under the given name filter, with `query_time` as
/// the instant that every record of the run is measured against.
pub fn status(
    pipeline_name_filters: &Vec<String>,
    filter_operation: &str,
    query_time: Timestamp,
) -> (run: StatusRun)
    ensures
        run@ == status_start(pipeline_name_filters.deep_view(), filter_operation@, query_time),
{
    let filters = copy_texts(pipeline_name_filters, 0, pipeline_name_filters.len());
    assert(pipeline_name_filters.deep_view().subrange(0, pipeline_name_filters@.len() as int)
        =~= pipeline_name_filters.deep_view());
    let run = StatusRun {
        pipeline_name_filters: filters,
        filter_operation: filter_operation.to_owned(),
        query_time,
        stage: Stage::Listing(IdListing::start()),
        descriptions: Vec::new(),
        position: 0,
        records: Vec::new(),
    };
    assert(run.descriptions.deep_view() =~= Seq::empty());
    assert(run.records.deep_view() =~= Seq::empty());
    run
}

fn allowed_statuses() -> (allowed: Vec<PipelineTaskStatus>)
    ensures
        allowed@ == allowed_status_query(),
{
    let mut allowed: Vec<PipelineTaskStatus> = Vec::new();
    allowed.push(PipelineTaskStatus::Running);
    allowed.push(PipelineTaskStatus::WaitingOnDependencies);
    allowed.push(PipelineTaskStatus::Creating);
    allowed.push(PipelineTaskStatus::WaitingForRunner);
    assert(allowed@ =~= allowed_status_query());
    allowed
}

impl StatusRun {
    /// The call to make next; `None` once the run has ended.
    pub fn request(&self) -> (request: Option<Request>)
        ensures
            request.deep_view() == status_request(self@),
    {
        match &self.stage {
            Stage::Listing(listing) => listing.request(),
            Stage::Describing(describing) => describing.request(),
            Stage::Fetching(fetch) => fetch.request(),
            Stage::Finished => None,
        }
    }

    /// Takes in the reply to the call that `request` asked for.
    pub fn receive(self, reply: Reply) -> (next: StatusRun)
        ensures
            next@ == status_step(self@, reply@),
    {
        match self.stage {
            Stage::Listing(listing) => {
                let listing = listing.receive(reply);
                if listing.pending() {
                    StatusRun { stage: Stage::Listing(listing), ..self }
                } else {
                    let describing = Describing::start(pipeline_ids(&listing.collected));
                    let run = StatusRun { stage: Stage::Finished, ..self };
                    run.describing_from(describing)
                }
            },
            Stage::Describing(describing) => {
                let describing = describing.receive(reply);
                let run = StatusRun { stage: Stage::Finished, ..self };
                run.describing_from(describing)
            },
            Stage::Fetching(fetch) => {
                if self.position >= self.descriptions.len() {
                    return StatusRun { stage: Stage::Finished, ..self };
                }
                let fetch = fetch.receive(reply);
                if fetch.pending() {
                    StatusRun { stage: Stage::Fetching(fetch), ..self }
                } else {
                    let position: usize = self.position;
                    let fields = convert(&self.descriptions[position].fields);
                    let record = Pipeline::create(fetch.tasks, fields, self.query_time);
                    let ghost before = self.records.deep_view();
                    let mut records = self.records;
                    if let Some(record) = record {
                        let ghost built = record@;
                        records.push(record);
                        assert(records.deep_view() =~= before.push(built));
                    }
                    let run = StatusRun { stage: Stage::Finished, records, ..self };
                    run.fetching_from(position + 1)
                }
            },
            Stage::Finished => StatusRun { stage: Stage::Finished, ..self },
        }
    }

    fn describing_from(self, describing: Describing) -> (next: StatusRun)
        ensures
            next@ == describing_from(self@, describing@),
    {
        if describing.pending() {
            StatusRun { stage: Stage::Describing(describing), ..self }
        } else {
            let run = StatusRun { descriptions: describing.collected, ..self };
            run.fetching_from(0)
        }
    }

    fn fetching_from(self, from: usize) -> (next: StatusRun)
        ensures
            next@ == fetching_from(self@, from as nat),
    {
        let mut position: usize = from;
        while position < self.descriptions.len() && !keeps_pipeline(
            self.descriptions[position].name.as_str(),
            &self.pipeline_name_filters,
            self.filter_operation.as_str(),
        )
            invariant
                next_kept(
                    self@.descriptions,
                    self@.pipeline_name_filters,
                    self@.filter_operation,
                    position as nat,
                ) == next_kept(
                    self@.descriptions,
                    self@.pipeline_name_filters,
                    self@.filter_operation,
                    from as nat,
                ),
            decreases self.descriptions@.len() - position,
        {
            position += 1;
        }
        if position < self.descriptions.len() {
            let fetch = TaskFetch::start(
                self.descriptions[position].pipeline_id.clone(),
                allowed_statuses(),
            );
            StatusRun { stage: Stage::Fetching(fetch), position, ..self }
        } else {
            let count: usize = self.descriptions.len();
            StatusRun { stage: Stage::Finished, position: count, ..self }
        }
    }
}

/// The run after a sequence of replies, from a given state.
pub open spec fn status_after(run: StatusRunView, replies: Seq<ReplyView>) -> StatusRunView
    decreases replies.len(),
{
    if replies.len() == 0 {
        run
    } else {
        status_step(status_after(run, replies.drop_last()), replies.last())
    }
}

/// The two replies of the fetch of each pipeline, one fetch after the
/// other, as the sequence in which they come in.
pub open spec fn round_replies(rounds: Seq<(ReplyView, ReplyView)>) -> Seq<ReplyView>
    decreases rounds.len(),
{
    if rounds.len() == 0 {
        Seq::empty()
    } else {
        seq![rounds[0].0, rounds[0].1] + round_replies(rounds.drop_first())
    }
}

/// The tasks that the two replies of a fetch leave for a pipeline: those of
/// the described objects that are in progress, none where the objects could
/// not be described.
pub open spec fn round_tasks(pipeline_id: Seq<char>, round: (ReplyView, ReplyView)) -> Seq<
    TaskView,
> {
    match round.1 {
        ReplyView::Objects(objects) => kept_tasks(pipeline_id, objects, allowed_status_query()),
        _ => Seq::empty(),
    }
}

/// The number of pipelines from place `from` on that pass the name filter.
pub open spec fn kept_count(
    descriptions: Seq<DescriptionView>,
    filters: Seq<Seq<char>>,
    operation: Seq<char>,
    from: nat,
) -> nat
    decreases descriptions.len() - from,
{
    if from >= descriptions.len() {
        0
    } else if keeps(descriptions[from as int].name, filters, operation) {
        1 + kept_count(descriptions, filters, operation, from + 1)
    } else {
        kept_count(descriptions, filters, operation, from + 1)
    }
}

/// The records of the pipelines from place `from` on: each pipeline that
/// passes the name filter takes the next round of replies, and contributes
/// its record if it has one, in the order of the descriptions. Pipelines for
/// which no round is left contribute nothing.
pub open spec fn records_from(
    descriptions: Seq<DescriptionView>,
    filters: Seq<Seq<char>>,
    operation: Seq<char>,
    query_time: Timestamp,
    from: nat,
    rounds: Seq<(ReplyView, ReplyView)>,
) -> Seq<PipelineView>
    decreases descriptions.len() - from,
{
    if from >= descriptions.len() {
        Seq::empty()
    } else if !keeps(descriptions[from as int].name, filters, operation) {
        records_from(descriptions, filters, operation, query_time, from + 1, rounds)
    } else if rounds.len() == 0 {
        Seq::empty()
    } else {
        let description = descriptions[from as int];
        let record = created_record(
            round_tasks(description.pipeline_id, rounds[0]),
            field_map(description.fields),
            query_time,
        );
        let later = records_from(
            descriptions,
            filters,
            operation,
            query_time,
            from + 1,
            rounds.drop_first(),
        );
        match record {
            Some(record) => seq![record] + later,
            None => later,
        }
    }
}

/// Feeding two sequences of replies one after the other is feeding their
/// concatenation.
pub proof fn lemma_status_after_concat(
    run: StatusRunView,
    first: Seq<ReplyView>,
    second: Seq<ReplyView>,
)
    ensures
        status_after(run, first + second) == status_after(status_after(run, first), second),
    decreases second.len(),
{
    if second.len() == 0 {
        assert(first + second =~= first);
    } else {
        assert((first + second).drop_last() =~= first + second.drop_last());
        assert((first + second).last() == second.last());
        lemma_status_after_concat(run, first, second.drop_last());
    }
}

/// A run that has ended stays as it is, whatever comes in.
pub proof fn lemma_finished_run_stays(run: StatusRunView, replies: Seq<ReplyView>)
    requires
        run.stage is Finished,
    ensures
        status_after(run, replies) == run,
    decreases replies.len(),
{
    if replies.len() > 0 {
        lemma_finished_run_stays(run, replies.drop_last());
    }
}

proof fn lemma_listing_stage(run: StatusRunView, replies: Seq<ReplyView>)
    requires
        run.stage == StageView::Listing(listing_start()),
        pages_with_successor(replies),
    ensures
        status_after(run, replies) == (StatusRunView {
            stage: StageView::Listing(listing_run(replies)),
            ..run
        }),
    decreases replies.len(),
{
    if replies.len() > 0 {
        let earlier = replies.drop_last();
        assert(forall|i: int| 0 <= i < earlier.len() ==> earlier[i] == replies[i]);
        lemma_listing_stage(run, earlier);
        lemma_listing_follows_cursor(replies);
    }
}

/// Once the last page of the listing is in, the run resolves the
/// identifiers of all pages, in page order.
pub proof fn lemma_status_lists_all_pages(run: StatusRunView, pages: Seq<ReplyView>)
    requires
        run.stage == StageView::Listing(listing_start()),
        pages.len() > 0,
        pages_with_successor(pages.drop_last()),
        pages.last() is Pipelines,
        page_of(pages.last()).marker is None,
    ensures
        status_after(run, pages) == describing_from(
            run,
            describing_start(present_ids(page_entries(pages).flatten())),
        ),
{
    lemma_listing_stage(run, pages.drop_last());
    lemma_listing_collects_all_pages(pages);
}

/// A listing call that fails ends the whole run, with the records it had.
pub proof fn lemma_status_ends_on_failed_listing(run: StatusRunView, replies: Seq<ReplyView>)
    requires
        run.stage == StageView::Listing(listing_start()),
        replies.len() > 0,
        pages_with_successor(replies.drop_last()),
        !(replies.last() is Pipelines),
    ensures
        status_after(run, replies).stage is Finished,
        status_after(run, replies).records == run.records,
        status_request(status_after(run, replies)) is None,
{
    lemma_listing_stage(run, replies.drop_last());
    lemma_listing_follows_cursor(replies.drop_last());
    reveal_with_fuel(present_ids, 1);
    reveal_with_fuel(next_kept, 1);
}

/// While batches are left the run goes on resolving; with the last batch
/// answered it turns to the pipelines described.
pub proof fn lemma_status_describes_in_batches(
    run: StatusRunView,
    pipeline_ids: Seq<Seq<char>>,
    batches: Seq<ReplyView>,
)
    requires
        batches.len() <= batch_count(pipeline_ids.len()),
    ensures
        status_after(describing_from(run, describing_start(pipeline_ids)), batches)
            == describing_from(run, describing_run(pipeline_ids, batches)),
    decreases batches.len(),
{
    if batches.len() > 0 {
        let earlier = batches.drop_last();
        lemma_status_describes_in_batches(run, pipeline_ids, earlier);
        lemma_describing_progress(pipeline_ids, earlier);
    }
}

proof fn lemma_next_kept(
    descriptions: Seq<DescriptionView>,
    filters: Seq<Seq<char>>,
    operation: Seq<char>,
    from: nat,
)
    ensures
        ({
            let place = next_kept(descriptions, filters, operation, from);
            &&& from <= place || place == descriptions.len()
            &&& place <= descriptions.len()
            &&& place < descriptions.len() ==> keeps(
                descriptions[place as int].name,
                filters,
                operation,
            )
            &&& next_kept(descriptions, filters, operation, place) == place
            &&& kept_count(descriptions, filters, operation, from) == kept_count(
                descriptions,
                filters,
                operation,
                place,
            )
        }),
    decreases descriptions.len() - from,
{
    if from < descriptions.len() && !keeps(descriptions[from as int].name, filters, operation) {
        lemma_next_kept(descriptions, filters, operation, from + 1);
    }
}

proof fn lemma_records_skip_dropped(
    descriptions: Seq<DescriptionView>,
    filters: Seq<Seq<char>>,
    operation: Seq<char>,
    query_time: Timestamp,
    from: nat,
    rounds: Seq<(ReplyView, ReplyView)>,
)
    ensures
        records_from(descriptions, filters, operation, query_time, from, rounds) == records_from(
            descriptions,
            filters,
            operation,
            query_time,
            next_kept(descriptions, filters, operation, from),
            rounds,
        ),
    decreases descriptions.len() - from,
{
    if from < descriptions.len() && !keeps(descriptions[from as int].name, filters, operation) {
        lemma_records_skip_dropped(descriptions, filters, operation, query_time, from + 1, rounds);
    }
}

/// From the first pipeline on, the run fetches the tasks of each pipeline
/// that passes the name filter, two replies for each, and appends its record
/// if it has one. It ends exactly when every such pipeline has had its two
/// replies.
pub proof fn lemma_status_fetches_in_rounds(
    run: StatusRunView,
    from: nat,
    rounds: Seq<(ReplyView, ReplyView)>,
)
    ensures
        ({
            let ended = status_after(fetching_from(run, from), round_replies(rounds));
            &&& ended.records == run.records + records_from(
                run.descriptions,
                run.pipeline_name_filters,
                run.filter_operation,
                run.query_time,
                from,
                rounds,
            )
            &&& ended.descriptions == run.descriptions
            &&& ended.query_time == run.query_time
            &&& ended.pipeline_name_filters == run.pipeline_name_filters
            &&& ended.filter_operation == run.filter_operation
            &&& status_request(ended) is None <==> rounds.len() >= kept_count(
                run.descriptions,
                run.pipeline_name_filters,
                run.filter_operation,
                from,
            )
        }),
    decreases rounds.len(),
{
    let descriptions = run.descriptions;
    let filters = run.pipeline_name_filters;
    let operation = run.filter_operation;
    let place = next_kept(descriptions, filters, operation, from);
    lemma_next_kept(descriptions, filters, operation, from);
    lemma_records_skip_dropped(descriptions, filters, operation, run.query_time, from, rounds);
    let begun = fetching_from(run, from);
    if place >= descriptions.len() {
        lemma_finished_run_stays(begun, round_replies(rounds));
        assert(run.records + Seq::<PipelineView>::empty() =~= run.records);
    } else if rounds.len() == 0 {
        assert(run.records + Seq::<PipelineView>::empty() =~= run.records);
    } else {
        let round = rounds[0];
        let both = seq![round.0, round.1];
        let rest = rounds.drop_first();
        lemma_status_after_concat(begun, both, round_replies(rest));
        assert(both.drop_last() =~= seq![round.0]);
        assert(seq![round.0].drop_last() =~= Seq::<ReplyView>::empty());
        assert(status_after(begun, Seq::<ReplyView>::empty()) == begun);
        assert(status_after(begun, seq![round.0]) == status_step(begun, round.0));
        assert(status_after(begun, both) == status_step(status_step(begun, round.0), round.1));
        let description = descriptions[place as int];
        let record = created_record(
            round_tasks(description.pipeline_id, round),
            field_map(description.fields),
            run.query_time,
        );
        let records = match record {
            Some(record) => run.records.push(record),
            None => run.records,
        };
        let advanced = StatusRunView { records, ..run };
        assert(status_after(begun, both) == fetching_from(advanced, place + 1));
        lemma_status_fetches_in_rounds(advanced, place + 1, rest);
        let later = records_from(
            descriptions,
            filters,
            operation,
            run.query_time,
            place + 1,
            rest,
        );
        match record {
            Some(record) => {
                assert(run.records.push(record) + later =~= run.records + (seq![record] + later));
            },
            None => {},
        }
    }
}

/// A whole run, from its beginning: the pages of the listing, the answers
/// to the batches, and two replies for each pipeline that passes the name
/// filter. The records of the run are those of the described pipelines that
/// pass the filter and have an identity, in the order of their descriptions,
/// each with the tasks in progress that its fetch found and measured against
/// the one instant of the query. Where a batch failed no pipeline counts as
/// described, and the run has no records.
pub proof fn lemma_status_run(
    filters: Seq<Seq<char>>,
    operation: Seq<char>,
    query_time: Timestamp,
    pages: Seq<ReplyView>,
    batches: Seq<ReplyView>,
    rounds: Seq<(ReplyView, ReplyView)>,
)
    requires
        pages.len() > 0,
        pages_with_successor(pages.drop_last()),
        pages.last() is Pipelines,
        page_of(pages.last()).marker is None,
        batches.len() == batch_count(present_ids(page_entries(pages).flatten()).len()),
    ensures
        ({
            let descriptions = if some_call_failed(batches) {
                Seq::empty()
            } else {
                batch_descriptions(batches).flatten()
            };
            let ended = status_after(
                status_start(filters, operation, query_time),
                pages + batches + round_replies(rounds),
            );
            &&& ended.records == records_from(
                descriptions,
                filters,
                operation,
                query_time,
                0,
                rounds,
            )
            &&& status_request(ended) is None <==> rounds.len() >= kept_count(
                descriptions,
                filters,
                operation,
                0,
            )
        }),
{
    let begun = status_start(filters, operation, query_time);
    let pipeline_ids = present_ids(page_entries(pages).flatten());
    lemma_status_lists_all_pages(begun, pages);
    lemma_status_describes_in_batches(begun, pipeline_ids, batches);
    lemma_describing_progress(pipeline_ids, batches);
    let described = StatusRunView {
        descriptions: describing_run(pipeline_ids, batches).collected,
        ..begun
    };
    lemma_status_fetches_in_rounds(described, 0, rounds);
    lemma_status_after_concat(begun, pages, batches);
    lemma_status_after_concat(begun, pages + batches, round_replies(rounds));
    assert(begun.records + records_from(
        described.descriptions,
        filters,
        operation,
        query_time,
        0,
        rounds,
    ) =~= records_from(described.descriptions, filters, operation, query_time, 0, rounds));
}

} // verus!
