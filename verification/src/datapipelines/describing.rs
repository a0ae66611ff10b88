//! Resolving pipeline identifiers to their metadata, in batches: the service
//! describes at most 25 pipelines in one call.

use crate::datapipelines::service::{
    DescriptionView, PipelineDescription, Reply, ReplyView, Request, RequestView,
};
use crate::text::copy_texts;
use vstd::prelude::*;

verus! {

/// The most pipelines that one describe call may name.
pub const BATCH_LIMIT: usize = 25;

/// The state of a resolution of pipeline identifiers.
#[derive(Debug, Clone)]
pub struct Describing {
    /// The identifiers to resolve, in the order given.
    pub pipeline_ids: Vec<String>,
    /// How many identifiers the calls answered so far have covered.
    pub position: usize,
    /// The descriptions received so far, in batch order; empty once a call
    /// has failed.
    pub collected: Vec<PipelineDescription>,
    /// Whether a call has failed.
    pub failed: bool,
}

/// The state of a resolution as plain values.
#[verifier::ext_equal]
pub struct DescribingView {
    pub pipeline_ids: Seq<Seq<char>>,
    pub position: nat,
    pub collected: Seq<DescriptionView>,
    pub failed: bool,
}

impl View for Describing {
    type V = DescribingView;

    open spec fn view(&self) -> DescribingView {
        DescribingView {
            pipeline_ids: self.pipeline_ids.deep_view(),
            position: self.position as nat,
            collected: self.collected.deep_view(),
            failed: self.failed,
        }
    }
}

impl DeepView for Describing {
    type V = DescribingView;

    open spec fn deep_view(&self) -> DescribingView {
        self@
    }
}

/// Where the batch that begins at `position` ends, among `count`
/// identifiers.
pub open spec fn batch_end(count: nat, position: nat) -> nat {
    if position + BATCH_LIMIT < count {
        position + BATCH_LIMIT as nat
    } else {
        count
    }
}

/// A resolution begins before the first identifier, with nothing collected.
pub open spec fn describing_start(pipeline_ids: Seq<Seq<char>>) -> DescribingView {
    DescribingView { pipeline_ids, position: 0, collected: Seq::empty(), failed: false }
}

/// The call that a resolution waits for: the next batch of identifiers, in
/// the order given, as long as identifiers are left.
pub open spec fn describing_request(state: DescribingView) -> Option<RequestView> {
    if state.position < state.pipeline_ids.len() {
        Some(
            RequestView::DescribePipelines {
                pipeline_ids: state.pipeline_ids.subrange(
                    state.position as int,
                    batch_end(state.pipeline_ids.len(), state.position) as int,
                ),
            },
        )
    } else {
        None
    }
}

/// What a reply does to a resolution. The batch asked for counts as
/// covered in either case. Descriptions are appended unless a call has failed
/// before. Anything else counts as a failed call: all that was collected is
/// dropped, and nothing is collected from there on. With no identifier left
/// nothing changes.
pub open spec fn describing_step(state: DescribingView, reply: ReplyView) -> DescribingView {
    if state.position >= state.pipeline_ids.len() {
        state
    } else {
        let position = batch_end(state.pipeline_ids.len(), state.position);
        match reply {
            ReplyView::Descriptions(descriptions) => DescribingView {
                position,
                collected: if state.failed {
                    Seq::empty()
                } else {
                    state.collected + descriptions
                },
                ..state
            },
            _ => DescribingView { position, collected: Seq::empty(), failed: true, ..state },
        }
    }
}

impl Describing {
    /// Begins the resolution of `pipeline_ids`.
    pub fn start(pipeline_ids: Vec<String>) -> (state: Describing)
        ensures
            state@ == describing_start(pipeline_ids.deep_view()),
    {
        let state = Describing { pipeline_ids, position: 0, collected: Vec::new(), failed: false };
        assert(state.collected.deep_view() =~= Seq::empty());
        state
    }

    /// Whether identifiers are left to ask for.
    pub fn pending(&self) -> (pending: bool)
        ensures
            pending == describing_request(self@) is Some,
    {
        self.position < self.pipeline_ids.len()
    }

    /// The call to make next; `None` once every identifier is covered.
    pub fn request(&self) -> (request: Option<Request>)
        ensures
            request.deep_view() == describing_request(self@),
    {
        let count: usize = self.pipeline_ids.len();
        if self.position >= count {
            return None;
        }
        let end: usize = if count - self.position > BATCH_LIMIT {
            self.position + BATCH_LIMIT
        } else {
            count
        };
        let batch = copy_texts(&self.pipeline_ids, self.position, end);
        Some(Request::DescribePipelines { pipeline_ids: batch })
    }

    /// Takes in the reply to the call that `request` asked for.
    pub fn receive(self, reply: Reply) -> (next: Describing)
        ensures
            next@ == describing_step(self@, reply@),
    {
        let count: usize = self.pipeline_ids.len();
        if self.position >= count {
            return self;
        }
        let position: usize = if count - self.position > BATCH_LIMIT {
            self.position + BATCH_LIMIT
        } else {
            count
        };
        match reply {
            Reply::Descriptions(descriptions) => {
                if self.failed {
                    let next = Describing { position, collected: Vec::new(), ..self };
                    assert(next.collected.deep_view() =~= Seq::empty());
                    next
                } else {
                    let ghost before = self.collected.deep_view();
                    let ghost added = descriptions.deep_view();
                    let mut collected = self.collected;
                    let mut batch = descriptions;
                    collected.append(&mut batch);
                    assert(collected.deep_view() =~= before + added);
                    Describing { position, collected, ..self }
                }
            },
            _ => {
                let next = Describing { position, collected: Vec::new(), failed: true, ..self };
                assert(next.collected.deep_view() =~= Seq::empty());
                next
            },
        }
    }
}

/// The resolution of `pipeline_ids` after a sequence of replies.
pub open spec fn describing_run(pipeline_ids: Seq<Seq<char>>, replies: Seq<ReplyView>) -> DescribingView
    decreases replies.len(),
{
    if replies.len() == 0 {
        describing_start(pipeline_ids)
    } else {
        describing_step(describing_run(pipeline_ids, replies.drop_last()), replies.last())
    }
}

/// The number of calls that `count` identifiers take: one for each full or
/// partial batch.
pub open spec fn batch_count(count: nat) -> nat {
    (count + BATCH_LIMIT - 1) as nat / BATCH_LIMIT as nat
}

/// The descriptions that a reply carries.
pub open spec fn descriptions_of(reply: ReplyView) -> Seq<DescriptionView> {
    match reply {
        ReplyView::Descriptions(descriptions) => descriptions,
        _ => Seq::empty(),
    }
}

/// The descriptions of each reply of a sequence.
pub open spec fn batch_descriptions(replies: Seq<ReplyView>) -> Seq<Seq<DescriptionView>> {
    Seq::new(replies.len(), |i: int| descriptions_of(replies[i]))
}

/// Whether one of the replies is a failed call.
pub open spec fn some_call_failed(replies: Seq<ReplyView>) -> bool {
    exists|i: int| 0 <= i < replies.len() && !((#[trigger] replies[i]) is Descriptions)
}

/// After `k` replies the first `25 * k` identifiers are covered, so the call
/// asked for next names the identifiers from there on, at most 25 and at
/// least one of them, in the order given. What has been collected is the
/// descriptions of all replies in order, or nothing where a call failed.
pub proof fn lemma_describing_progress(pipeline_ids: Seq<Seq<char>>, replies: Seq<ReplyView>)
    requires
        replies.len() <= batch_count(pipeline_ids.len()),
    ensures
        ({
            let state = describing_run(pipeline_ids, replies);
            let covered = BATCH_LIMIT * replies.len();
            &&& state.pipeline_ids == pipeline_ids
            &&& state.position == if covered < pipeline_ids.len() {
                covered
            } else {
                pipeline_ids.len() as int
            }
            &&& state.failed == some_call_failed(replies)
            &&& state.collected == if some_call_failed(replies) {
                Seq::empty()
            } else {
                batch_descriptions(replies).flatten()
            }
            &&& replies.len() < batch_count(pipeline_ids.len()) ==> {
                &&& covered < pipeline_ids.len()
                &&& describing_request(state) == Some(
                    RequestView::DescribePipelines {
                        pipeline_ids: pipeline_ids.subrange(
                            covered,
                            if covered + BATCH_LIMIT < pipeline_ids.len() {
                                covered + BATCH_LIMIT
                            } else {
                                pipeline_ids.len() as int
                            },
                        ),
                    },
                )
            }
            &&& replies.len() == batch_count(pipeline_ids.len()) ==> describing_request(state)
                is None
        }),
    decreases replies.len(),
{
    if replies.len() == 0 {
        assert(batch_descriptions(replies) =~= Seq::<Seq<DescriptionView>>::empty());
    } else {
        let earlier = replies.drop_last();
        lemma_describing_progress(pipeline_ids, earlier);
        assert(batch_descriptions(replies) =~= batch_descriptions(earlier).push(
            descriptions_of(replies.last()),
        ));
        batch_descriptions(earlier).lemma_flatten_push(descriptions_of(replies.last()));
        if some_call_failed(earlier) {
            let i = choose|i: int| 0 <= i < earlier.len() && !((#[trigger] earlier[i]) is Descriptions);
            assert(replies[i] == earlier[i]);
        }
        if !(replies.last() is Descriptions) {
            assert(!(replies[replies.len() - 1] is Descriptions));
        }
        if some_call_failed(replies) && !some_call_failed(earlier) {
            let i = choose|i: int| 0 <= i < replies.len() && !((#[trigger] replies[i]) is Descriptions);
            if i < earlier.len() {
                assert(earlier[i] == replies[i]);
            }
        }
    }
}

/// A resolution takes exactly one call for each batch, and it is all or
/// nothing: with every call answered it holds the descriptions of all
/// batches in batch order, and with one call failed it holds none.
pub proof fn lemma_describing_is_all_or_nothing(
    pipeline_ids: Seq<Seq<char>>,
    replies: Seq<ReplyView>,
)
    requires
        replies.len() == batch_count(pipeline_ids.len()),
    ensures
        describing_request(describing_run(pipeline_ids, replies)) is None,
        describing_run(pipeline_ids, replies).collected == if some_call_failed(replies) {
            Seq::empty()
        } else {
            batch_descriptions(replies).flatten()
        },
{
    lemma_describing_progress(pipeline_ids, replies);
}

} // verus!
