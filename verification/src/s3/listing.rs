//! Listing a bucket under a prefix: the store answers page by page, each
//! page naming the token of the next.

use crate::errors::{json_string_of, message_object, ErrorResponse};
use crate::s3::s3_list_object::{
    complete, listed, ListObjectView, Object, ObjectReportView, S3ListObject,
};
use vstd::prelude::*;

verus! {

/// A call on the object store: list the objects of `bucket` under `prefix`,
/// from the page that `continuation_token` names, or from the first.
#[derive(Debug, Clone)]
pub struct ListObjectsRequest {
    pub bucket: String,
    pub prefix: String,
    pub continuation_token: Option<String>,
}

/// A call on the object store as plain text.
#[verifier::ext_equal]
pub struct ListObjectsRequestView {
    pub bucket: Seq<char>,
    pub prefix: Seq<char>,
    pub continuation_token: Option<Seq<char>>,
}

impl View for ListObjectsRequest {
    type V = ListObjectsRequestView;

    open spec fn view(&self) -> ListObjectsRequestView {
        ListObjectsRequestView {
            bucket: self.bucket@,
            prefix: self.prefix@,
            continuation_token: self.continuation_token.deep_view(),
        }
    }
}

impl DeepView for ListObjectsRequest {
    type V = ListObjectsRequestView;

    open spec fn deep_view(&self) -> ListObjectsRequestView {
        self@
    }
}

/// What came back from a list call.
#[derive(Debug, Clone)]
pub enum ListReply {
    /// The call failed; the text of the error.
    Failed(String),
    /// A page: the objects on it, if the store reported any, and the token
    /// of the next page, if there is one.
    Page { contents: Option<Vec<Object>>, next_continuation_token: Option<String> },
}

/// The outcome of a list call as plain values.
#[verifier::ext_equal]
pub enum ListReplyView {
    Failed(Seq<char>),
    Page { contents: Option<Seq<ObjectReportView>>, next_continuation_token: Option<Seq<char>> },
}

impl View for ListReply {
    type V = ListReplyView;

    open spec fn view(&self) -> ListReplyView {
        match self {
            ListReply::Failed(message) => ListReplyView::Failed(message@),
            ListReply::Page { contents, next_continuation_token } => ListReplyView::Page {
                contents: contents.deep_view(),
                next_continuation_token: next_continuation_token.deep_view(),
            },
        }
    }
}

/// How far a listing has come.
#[derive(Debug, Clone)]
pub enum Progress {
    /// A page is to be asked for: the one under the token, or the first.
    Asking(Option<String>),
    /// The last page has been read.
    Listed,
    /// A call failed; the error as JSON.
    Failed(String),
}

/// How far a listing has come, as plain values.
#[verifier::ext_equal]
pub enum ProgressView {
    Asking(Option<Seq<char>>),
    Listed,
    Failed(Seq<char>),
}

impl View for Progress {
    type V = ProgressView;

    open spec fn view(&self) -> ProgressView {
        match self {
            Progress::Asking(token) => ProgressView::Asking(token.deep_view()),
            Progress::Listed => ProgressView::Listed,
            Progress::Failed(error) => ProgressView::Failed(error@),
        }
    }
}

/// The state of the listing of a bucket.
#[derive(Debug)]
pub struct ObjectListing {
    pub bucket: String,
    pub prefix: String,
    /// The entries of the pages read so far, in the order of the store.
    pub list: Vec<S3ListObject>,
    pub progress: Progress,
}

/// The state of a listing as plain values.
#[verifier::ext_equal]
pub struct ObjectListingView {
    pub bucket: Seq<char>,
    pub prefix: Seq<char>,
    pub list: Seq<ListObjectView>,
    pub progress: ProgressView,
}

impl View for ObjectListing {
    type V = ObjectListingView;

    open spec fn view(&self) -> ObjectListingView {
        ObjectListingView {
            bucket: self.bucket@,
            prefix: self.prefix@,
            list: self.list.deep_view(),
            progress: self.progress@,
        }
    }
}

/// Every report of the sequence is complete.
pub open spec fn all_complete(reports: Seq<ObjectReportView>) -> bool {
    forall|i: int| 0 <= i < reports.len() ==> complete(#[trigger] reports[i])
}

/// The reports that a listing can take in: a page on which every object is
/// reported completely, or a failure.
pub open spec fn acceptable(reply: ListReplyView) -> bool {
    match reply {
        ListReplyView::Page { contents: Some(reports), .. } => all_complete(reports),
        _ => true,
    }
}

/// The listing entries of the objects of a page.
pub open spec fn listed_all(reports: Seq<ObjectReportView>) -> Seq<ListObjectView> {
    reports.map_values(|report: ObjectReportView| listed(report))
}

/// A listing begins by asking for the first page.
pub open spec fn ls_start(bucket: Seq<char>, prefix: Seq<char>) -> ObjectListingView {
    ObjectListingView { bucket, prefix, list: Seq::empty(), progress: ProgressView::Asking(None) }
}

/// The call that a listing waits for; `None` once it has ended.
pub open spec fn ls_request(listing: ObjectListingView) -> Option<ListObjectsRequestView> {
    match listing.progress {
        ProgressView::Asking(token) => Some(
            ListObjectsRequestView {
                bucket: listing.bucket,
                prefix: listing.prefix,
                continuation_token: token,
            },
        ),
        _ => None,
    }
}

/// What a reply does to a listing that waits for a page. The objects of a
/// page are appended and the token of the next page is taken over; the
/// listing ends where the page names none. A page without objects ends the
/// listing, whatever token it names. A failure ends it with the error as
/// JSON. A listing that has ended stays as it is.
pub open spec fn ls_step(listing: ObjectListingView, reply: ListReplyView) -> ObjectListingView {
    match listing.progress {
        ProgressView::Asking(_) => match reply {
            ListReplyView::Failed(message) => ObjectListingView {
                progress: ProgressView::Failed(message_object(json_string_of(message))),
                ..listing
            },
            ListReplyView::Page { contents: Some(reports), next_continuation_token } => {
                ObjectListingView {
                    list: listing.list + listed_all(reports),
                    progress: match next_continuation_token {
                        Some(token) => ProgressView::Asking(Some(token)),
                        None => ProgressView::Listed,
                    },
                    ..listing
                }
            },
            ListReplyView::Page { contents: None, .. } => ObjectListingView {
                progress: ProgressView::Listed,
                ..listing
            },
        },
        _ => listing,
    }
}

/// What a listing amounts to: the error if a call failed, else the entries
/// read.
pub open spec fn ls_result(listing: ObjectListingView) -> Result<Seq<ListObjectView>, Seq<char>> {
    match listing.progress {
        ProgressView::Failed(error) => Err(error),
        _ => Ok(listing.list),
    }
}

/// Begins the listing of the objects of `bucket` under `prefix`.
pub fn ls(bucket: &str, prefix: &str) -> (listing: ObjectListing)
    ensures
        listing@ == ls_start(bucket@, prefix@),
{
    let listing = ObjectListing {
        bucket: bucket.to_owned(),
        prefix: prefix.to_owned(),
        list: Vec::new(),
        progress: Progress::Asking(None),
    };
    assert(listing.list.deep_view() =~= Seq::empty());
    listing
}

impl ObjectListing {
    /// The call to make next; `None` once the listing has ended.
    pub fn request(&self) -> (request: Option<ListObjectsRequest>)
        ensures
            request.deep_view() == ls_request(self@),
    {
        match &self.progress {
            Progress::Asking(token) => Some(
                ListObjectsRequest {
                    bucket: self.bucket.clone(),
                    prefix: self.prefix.clone(),
                    continuation_token: match token {
                        Some(token) => Some(token.clone()),
                        None => None,
                    },
                },
            ),
            _ => None,
        }
    }

    /// Takes in the reply to the call that `request` asked for.
    pub fn receive(self, reply: ListReply) -> (next: ObjectListing)
        requires
            acceptable(reply@),
        ensures
            next@ == ls_step(self@, reply@),
    {
        match self.progress {
            Progress::Asking(_) => match reply {
                ListReply::Failed(message) => ObjectListing {
                    progress: Progress::Failed(ErrorResponse::json(message.as_str())),
                    ..self
                },
                ListReply::Page { contents: Some(reports), next_continuation_token } => {
                    let mut list = self.list;
                    let ghost before = list.deep_view();
                    let ghost entries = listed_all(reports.deep_view());
                    let mut i: usize = 0;
                    assert(list.deep_view() =~= before + entries.take(0));
                    while i < reports.len()
                        invariant
                            i <= reports@.len(),
                            all_complete(reports.deep_view()),
                            entries == listed_all(reports.deep_view()),
                            list.deep_view() == before + entries.take(i as int),
                        decreases reports@.len() - i,
                    {
                        let ghost so_far = list.deep_view();
                        assert(complete(reports.deep_view()[i as int]));
                        let entry = S3ListObject::from(&reports[i]);
                        list.push(entry);
                        assert(list.deep_view() =~= so_far.push(
                            listed(reports.deep_view()[i as int]),
                        ));
                        i += 1;
                        assert(list.deep_view() =~= before + entries.take(i as int));
                    }
                    assert(entries.take(reports@.len() as int) =~= entries);
                    ObjectListing {
                        list,
                        progress: match next_continuation_token {
                            Some(token) => Progress::Asking(Some(token)),
                            None => Progress::Listed,
                        },
                        ..self
                    }
                },
                ListReply::Page { contents: None, .. } => ObjectListing {
                    progress: Progress::Listed,
                    ..self
                },
            },
            Progress::Listed => ObjectListing { progress: Progress::Listed, ..self },
            Progress::Failed(error) => ObjectListing { progress: Progress::Failed(error), ..self },
        }
    }

    /// What the listing amounts to.
    pub fn into_result(self) -> (result: Result<Vec<S3ListObject>, String>)
        ensures
            match result {
                Ok(list) => ls_result(self@) == Ok::<Seq<ListObjectView>, Seq<char>>(list.deep_view()),
                Err(error) => ls_result(self@) == Err::<Seq<ListObjectView>, Seq<char>>(error@),
            },
    {
        match self.progress {
            Progress::Failed(error) => Err(error),
            _ => Ok(self.list),
        }
    }
}

/// The listing after a sequence of replies, from a given state.
pub open spec fn ls_after(listing: ObjectListingView, replies: Seq<ListReplyView>) -> ObjectListingView
    decreases replies.len(),
{
    if replies.len() == 0 {
        listing
    } else {
        ls_step(ls_after(listing, replies.drop_last()), replies.last())
    }
}

/// The listing entries that a reply carries.
pub open spec fn entries_of(reply: ListReplyView) -> Seq<ListObjectView> {
    match reply {
        ListReplyView::Page { contents: Some(reports), .. } => listed_all(reports),
        _ => Seq::empty(),
    }
}

/// The token of the next page that a reply names.
pub open spec fn token_of(reply: ListReplyView) -> Option<Seq<char>> {
    match reply {
        ListReplyView::Page { next_continuation_token, .. } => next_continuation_token,
        _ => None,
    }
}

/// The listing entries of each reply of a sequence.
pub open spec fn page_lists(replies: Seq<ListReplyView>) -> Seq<Seq<ListObjectView>> {
    Seq::new(replies.len(), |i: int| entries_of(replies[i]))
}

/// Every reply is a page with objects that names a further page.
pub open spec fn pages_go_on(replies: Seq<ListReplyView>) -> bool {
    forall|i: int|
        0 <= i < replies.len() ==> (#[trigger] replies[i]) matches ListReplyView::Page {
            contents: Some(_),
            next_continuation_token: Some(_),
        }
}

/// While every page names a successor, the listing holds the entries of
/// all pages in order and asks for the page under the token that the last
/// page named; at the beginning, for the first page.
pub proof fn lemma_ls_follows_token(bucket: Seq<char>, prefix: Seq<char>, replies: Seq<ListReplyView>)
    requires
        pages_go_on(replies),
    ensures
        ls_after(ls_start(bucket, prefix), replies) == (ObjectListingView {
            bucket,
            prefix,
            list: page_lists(replies).flatten(),
            progress: ProgressView::Asking(
                if replies.len() == 0 {
                    None
                } else {
                    token_of(replies.last())
                },
            ),
        }),
    decreases replies.len(),
{
    if replies.len() == 0 {
        assert(page_lists(replies) =~= Seq::<Seq<ListObjectView>>::empty());
    } else {
        let earlier = replies.drop_last();
        assert(forall|i: int| 0 <= i < earlier.len() ==> earlier[i] == replies[i]);
        lemma_ls_follows_token(bucket, prefix, earlier);
        assert(page_lists(replies) =~= page_lists(earlier).push(entries_of(replies.last())));
        page_lists(earlier).lemma_flatten_push(entries_of(replies.last()));
        assert(replies[replies.len() - 1] is Page);
    }
}

/// Where every page but the last names a successor and the last names none,
/// the listing amounts to the entries of all pages, in page order.
pub proof fn lemma_ls_lists_every_page(
    bucket: Seq<char>,
    prefix: Seq<char>,
    replies: Seq<ListReplyView>,
)
    requires
        replies.len() > 0,
        pages_go_on(replies.drop_last()),
        replies.last() is Page,
        token_of(replies.last()) is None,
    ensures
        ls_request(ls_after(ls_start(bucket, prefix), replies)) is None,
        ls_result(ls_after(ls_start(bucket, prefix), replies)) == Ok::<
            Seq<ListObjectView>,
            Seq<char>,
        >(page_lists(replies).flatten()),
{
    let earlier = replies.drop_last();
    lemma_ls_follows_token(bucket, prefix, earlier);
    assert(page_lists(replies) =~= page_lists(earlier).push(entries_of(replies.last())));
    page_lists(earlier).lemma_flatten_push(entries_of(replies.last()));
    assert(page_lists(earlier).flatten() + Seq::<ListObjectView>::empty() =~= page_lists(
        earlier,
    ).flatten());
}

/// A call that fails ends the listing with the text of the error, wrapped
/// as a JSON object; the entries read before do not show in the result.
pub proof fn lemma_ls_fails_with_the_error(
    bucket: Seq<char>,
    prefix: Seq<char>,
    replies: Seq<ListReplyView>,
    message: Seq<char>,
)
    requires
        replies.len() > 0,
        pages_go_on(replies.drop_last()),
        replies.last() == ListReplyView::Failed(message),
    ensures
        ls_request(ls_after(ls_start(bucket, prefix), replies)) is None,
        ls_result(ls_after(ls_start(bucket, prefix), replies)) == Err::<
            Seq<ListObjectView>,
            Seq<char>,
        >(message_object(json_string_of(message))),
{
    lemma_ls_follows_token(bucket, prefix, replies.drop_last());
}

} // verus!
