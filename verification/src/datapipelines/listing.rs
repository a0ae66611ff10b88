//! Enumerating the pipelines: the listing is read page by page, each page
//! naming the cursor of the next, and it is all or nothing.

use crate::datapipelines::service::{
    IdNameView, PageView, PipelineIdName, Reply, ReplyView, Request, RequestView,
};
use vstd::prelude::*;

verus! {

/// The state of an enumeration of all pipelines.
#[derive(Debug, Clone)]
pub struct IdListing {
    /// The entries of the pages read so far, in the order of the service.
    pub collected: Vec<PipelineIdName>,
    /// The cursor to ask the next page with; `None` once the enumeration
    /// has ended.
    pub marker: Option<String>,
}

/// The state of an enumeration as plain values.
#[verifier::ext_equal]
pub struct IdListingView {
    pub collected: Seq<IdNameView>,
    pub marker: Option<Seq<char>>,
}

impl View for IdListing {
    type V = IdListingView;

    open spec fn view(&self) -> IdListingView {
        IdListingView { collected: self.collected.deep_view(), marker: self.marker.deep_view() }
    }
}

impl DeepView for IdListing {
    type V = IdListingView;

    open spec fn deep_view(&self) -> IdListingView {
        self@
    }
}

/// An enumeration begins with nothing collected and the empty cursor.
pub open spec fn listing_start() -> IdListingView {
    IdListingView { collected: Seq::empty(), marker: Some(Seq::empty()) }
}

/// The call that an enumeration waits for, if it has not ended.
pub open spec fn listing_request(listing: IdListingView) -> Option<RequestView> {
    match listing.marker {
        Some(marker) => Some(RequestView::ListPipelines { marker }),
        None => None,
    }
}

/// What a reply does to an enumeration. A page is appended and its cursor
/// taken over. Anything else counts as a failed call: all that was collected
/// is dropped and the enumeration ends. Once ended, nothing changes.
pub open spec fn listing_step(listing: IdListingView, reply: ReplyView) -> IdListingView {
    if listing.marker is None {
        listing
    } else {
        match reply {
            ReplyView::Pipelines(page) => IdListingView {
                collected: listing.collected + page.pipeline_id_list,
                marker: page.marker,
            },
            _ => IdListingView { collected: Seq::empty(), marker: None },
        }
    }
}

impl IdListing {
    /// Begins an enumeration.
    pub fn start() -> (listing: IdListing)
        ensures
            listing@ == listing_start(),
    {
        let listing = IdListing { collected: Vec::new(), marker: Some(String::new()) };
        assert(listing.collected.deep_view() =~= Seq::empty());
        listing
    }

    /// Whether the enumeration still waits for a page.
    pub fn pending(&self) -> (pending: bool)
        ensures
            pending == listing_request(self@) is Some,
    {
        self.marker.is_some()
    }

    /// The call to make next; `None` once the enumeration has ended.
    pub fn request(&self) -> (request: Option<Request>)
        ensures
            request.deep_view() == listing_request(self@),
    {
        match &self.marker {
            Some(marker) => Some(Request::ListPipelines { marker: marker.clone() }),
            None => None,
        }
    }

    /// Takes in the reply to the call that `request` asked for.
    pub fn receive(self, reply: Reply) -> (next: IdListing)
        ensures
            next@ == listing_step(self@, reply@),
    {
        if self.marker.is_none() {
            return self;
        }
        match reply {
            Reply::Pipelines(page) => {
                let ghost before = self.collected.deep_view();
                let ghost added = page.pipeline_id_list.deep_view();
                let mut collected = self.collected;
                let mut entries = page.pipeline_id_list;
                collected.append(&mut entries);
                assert(collected.deep_view() =~= before + added);
                IdListing { collected, marker: page.marker }
            },
            _ => {
                let next = IdListing { collected: Vec::new(), marker: None };
                assert(next.collected.deep_view() =~= Seq::empty());
                next
            },
        }
    }
}

/// The enumeration after a sequence of replies, from its beginning.
pub open spec fn listing_run(replies: Seq<ReplyView>) -> IdListingView
    decreases replies.len(),
{
    if replies.len() == 0 {
        listing_start()
    } else {
        listing_step(listing_run(replies.drop_last()), replies.last())
    }
}

/// The page that a reply carries.
pub open spec fn page_of(reply: ReplyView) -> PageView {
    match reply {
        ReplyView::Pipelines(page) => page,
        _ => PageView { pipeline_id_list: Seq::empty(), marker: None },
    }
}

/// The entries of each page of a sequence of replies.
pub open spec fn page_entries(replies: Seq<ReplyView>) -> Seq<Seq<IdNameView>> {
    Seq::new(replies.len(), |i: int| page_of(replies[i]).pipeline_id_list)
}

/// Every reply is a page that names the cursor of a further page.
pub open spec fn pages_with_successor(replies: Seq<ReplyView>) -> bool {
    forall|i: int|
        0 <= i < replies.len() ==> (#[trigger] replies[i]) is Pipelines && page_of(
            replies[i],
        ).marker is Some
}

/// While every page names a successor, the enumeration holds the entries of
/// all pages in order and waits for the page under the cursor that the last
/// page named; at the very beginning, for the page under the empty cursor.
pub proof fn lemma_listing_follows_cursor(replies: Seq<ReplyView>)
    requires
        pages_with_successor(replies),
    ensures
        listing_run(replies).collected == page_entries(replies).flatten(),
        listing_run(replies).marker == if replies.len() == 0 {
            Some(Seq::<char>::empty())
        } else {
            page_of(replies.last()).marker
        },
        listing_request(listing_run(replies)) is Some,
    decreases replies.len(),
{
    if replies.len() == 0 {
        assert(page_entries(replies) =~= Seq::<Seq<IdNameView>>::empty());
    } else {
        let earlier = replies.drop_last();
        assert(forall|i: int| 0 <= i < earlier.len() ==> earlier[i] == replies[i]);
        lemma_listing_follows_cursor(earlier);
        assert(page_entries(replies) =~= page_entries(earlier).push(
            page_of(replies.last()).pipeline_id_list,
        ));
        page_entries(earlier).lemma_flatten_push(page_of(replies.last()).pipeline_id_list);
    }
}

/// Where every page but the last names a successor and the last names none,
/// the enumeration ends with the entries of all pages, in page order.
pub proof fn lemma_listing_collects_all_pages(replies: Seq<ReplyView>)
    requires
        replies.len() > 0,
        pages_with_successor(replies.drop_last()),
        replies.last() is Pipelines,
        page_of(replies.last()).marker is None,
    ensures
        listing_run(replies) == (IdListingView {
            collected: page_entries(replies).flatten(),
            marker: None,
        }),
        listing_request(listing_run(replies)) is None,
{
    let earlier = replies.drop_last();
    lemma_listing_follows_cursor(earlier);
    assert(page_entries(replies) =~= page_entries(earlier).push(
        page_of(replies.last()).pipeline_id_list,
    ));
    page_entries(earlier).lemma_flatten_push(page_of(replies.last()).pipeline_id_list);
}

/// An enumeration that has ended stays as it is, whatever comes in.
pub proof fn lemma_ended_listing_stays(listing: IdListingView, replies: Seq<ReplyView>)
    requires
        listing.marker is None,
    ensures
        listing_continue(listing, replies) == listing,
    decreases replies.len(),
{
    if replies.len() > 0 {
        lemma_ended_listing_stays(listing, replies.drop_last());
    }
}

/// The enumeration after a sequence of replies, from a given state.
pub open spec fn listing_continue(listing: IdListingView, replies: Seq<ReplyView>) -> IdListingView
    decreases replies.len(),
{
    if replies.len() == 0 {
        listing
    } else {
        listing_step(listing_continue(listing, replies.drop_last()), replies.last())
    }
}

/// A run is the run of any prefix, continued with the rest.
pub proof fn lemma_listing_run_splits(replies: Seq<ReplyView>, k: int)
    requires
        0 <= k <= replies.len(),
    ensures
        listing_run(replies) == listing_continue(
            listing_run(replies.take(k)),
            replies.skip(k),
        ),
    decreases replies.len(),
{
    if k == replies.len() {
        assert(replies.take(k) =~= replies);
    } else {
        let earlier = replies.drop_last();
        lemma_listing_run_splits(earlier, k);
        assert(earlier.take(k) =~= replies.take(k));
        assert(replies.skip(k).drop_last() =~= earlier.skip(k));
    }
}

/// One failed call empties the enumeration: where the reply in place `k` is
/// no page, after pages that each named a successor, the enumeration ends
/// with nothing collected, whatever the earlier pages held and whatever
/// comes in later.
pub proof fn lemma_listing_is_all_or_nothing(replies: Seq<ReplyView>, k: int)
    requires
        0 <= k < replies.len(),
        pages_with_successor(replies.take(k)),
        !(replies[k] is Pipelines),
    ensures
        listing_run(replies) == (IdListingView { collected: Seq::empty(), marker: None }),
{
    let upto = replies.take(k + 1);
    assert(upto.drop_last() =~= replies.take(k));
    assert(upto.last() == replies[k]);
    lemma_listing_follows_cursor(replies.take(k));
    lemma_listing_run_splits(replies, k + 1);
    lemma_ended_listing_stays(listing_run(upto), replies.skip(k + 1));
}

} // verus!
