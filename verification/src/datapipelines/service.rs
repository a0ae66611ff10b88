//! The values exchanged with the pipeline service: what each of its four
//! operations is asked and what it answers, reduced to what the status
//! report reads.

use crate::text::same_text;
use crate::utilities::field_texts;
use vstd::hash_map::StringHashMap;
use vstd::prelude::*;

verus! {

/// One key/value entry of the metadata of a pipeline or of a task object.
#[derive(Debug, Clone)]
pub struct Field {
    pub key: String,
    /// The value as text; absent for an entry that refers to another object.
    pub string_value: Option<String>,
}

/// A metadata entry as plain text.
#[verifier::ext_equal]
pub struct FieldView {
    pub key: Seq<char>,
    pub string_value: Option<Seq<char>>,
}

impl View for Field {
    type V = FieldView;

    open spec fn view(&self) -> FieldView {
        FieldView { key: self.key@, string_value: self.string_value.deep_view() }
    }
}

impl DeepView for Field {
    type V = FieldView;

    open spec fn deep_view(&self) -> FieldView {
        self@
    }
}

/// An entry of the pipeline listing.
#[derive(Debug, Clone)]
pub struct PipelineIdName {
    pub id: Option<String>,
    pub name: Option<String>,
}

/// A listing entry as plain text.
#[verifier::ext_equal]
pub struct IdNameView {
    pub id: Option<Seq<char>>,
    pub name: Option<Seq<char>>,
}

impl View for PipelineIdName {
    type V = IdNameView;

    open spec fn view(&self) -> IdNameView {
        IdNameView { id: self.id.deep_view(), name: self.name.deep_view() }
    }
}

impl DeepView for PipelineIdName {
    type V = IdNameView;

    open spec fn deep_view(&self) -> IdNameView {
        self@
    }
}

/// One page of the pipeline listing.
#[derive(Debug, Clone)]
pub struct PipelinePage {
    pub pipeline_id_list: Vec<PipelineIdName>,
    /// The cursor of the next page; absent on the last page.
    pub marker: Option<String>,
}

/// A page of the pipeline listing as plain text.
#[verifier::ext_equal]
pub struct PageView {
    pub pipeline_id_list: Seq<IdNameView>,
    pub marker: Option<Seq<char>>,
}

impl View for PipelinePage {
    type V = PageView;

    open spec fn view(&self) -> PageView {
        PageView {
            pipeline_id_list: self.pipeline_id_list.deep_view(),
            marker: self.marker.deep_view(),
        }
    }
}

impl DeepView for PipelinePage {
    type V = PageView;

    open spec fn deep_view(&self) -> PageView {
        self@
    }
}

/// The metadata of one pipeline.
#[derive(Debug, Clone)]
pub struct PipelineDescription {
    pub pipeline_id: String,
    pub name: String,
    pub fields: Vec<Field>,
}

/// The metadata of a pipeline as plain text.
#[verifier::ext_equal]
pub struct DescriptionView {
    pub pipeline_id: Seq<char>,
    pub name: Seq<char>,
    pub fields: Seq<FieldView>,
}

impl View for PipelineDescription {
    type V = DescriptionView;

    open spec fn view(&self) -> DescriptionView {
        DescriptionView {
            pipeline_id: self.pipeline_id@,
            name: self.name@,
            fields: self.fields.deep_view(),
        }
    }
}

impl DeepView for PipelineDescription {
    type V = DescriptionView;

    open spec fn deep_view(&self) -> DescriptionView {
        self@
    }
}

/// One task object of a pipeline, as the service describes it.
#[derive(Debug, Clone)]
pub struct PipelineObject {
    pub id: String,
    pub name: String,
    pub fields: Vec<Field>,
}

/// A described task object as plain text.
#[verifier::ext_equal]
pub struct ObjectView {
    pub id: Seq<char>,
    pub name: Seq<char>,
    pub fields: Seq<FieldView>,
}

impl View for PipelineObject {
    type V = ObjectView;

    open spec fn view(&self) -> ObjectView {
        ObjectView { id: self.id@, name: self.name@, fields: self.fields.deep_view() }
    }
}

impl DeepView for PipelineObject {
    type V = ObjectView;

    open spec fn deep_view(&self) -> ObjectView {
        self@
    }
}

/// A call that the caller is to make on the pipeline service.
#[derive(Debug, Clone)]
pub enum Request {
    /// List the pipelines from the given cursor on; the empty cursor asks
    /// for the first page.
    ListPipelines { marker: String },
    /// Describe the given pipelines, at most 25 of them.
    DescribePipelines { pipeline_ids: Vec<String> },
    /// Query the identifiers of the objects of a pipeline in a sphere.
    QueryObjects { pipeline_id: String, sphere: String },
    /// Describe the given objects of a pipeline.
    DescribeObjects { pipeline_id: String, object_ids: Vec<String> },
}

/// A call on the pipeline service as plain text.
#[verifier::ext_equal]
pub enum RequestView {
    ListPipelines { marker: Seq<char> },
    DescribePipelines { pipeline_ids: Seq<Seq<char>> },
    QueryObjects { pipeline_id: Seq<char>, sphere: Seq<char> },
    DescribeObjects { pipeline_id: Seq<char>, object_ids: Seq<Seq<char>> },
}

impl View for Request {
    type V = RequestView;

    open spec fn view(&self) -> RequestView {
        match self {
            Request::ListPipelines { marker } => RequestView::ListPipelines { marker: marker@ },
            Request::DescribePipelines { pipeline_ids } => RequestView::DescribePipelines {
                pipeline_ids: pipeline_ids.deep_view(),
            },
            Request::QueryObjects { pipeline_id, sphere } => RequestView::QueryObjects {
                pipeline_id: pipeline_id@,
                sphere: sphere@,
            },
            Request::DescribeObjects { pipeline_id, object_ids } => RequestView::DescribeObjects {
                pipeline_id: pipeline_id@,
                object_ids: object_ids.deep_view(),
            },
        }
    }
}

impl DeepView for Request {
    type V = RequestView;

    open spec fn deep_view(&self) -> RequestView {
        self@
    }
}

/// What came back from the call that was asked for last.
#[derive(Debug, Clone)]
pub enum Reply {
    /// The call failed.
    Failed,
    /// A page of the pipeline listing.
    Pipelines(PipelinePage),
    /// The descriptions of the pipelines asked for.
    Descriptions(Vec<PipelineDescription>),
    /// The object identifiers that a query found, if it reported any.
    ObjectIds(Option<Vec<String>>),
    /// The descriptions of the objects asked for.
    Objects(Vec<PipelineObject>),
}

/// The outcome of a call on the pipeline service as plain text.
#[verifier::ext_equal]
pub enum ReplyView {
    Failed,
    Pipelines(PageView),
    Descriptions(Seq<DescriptionView>),
    ObjectIds(Option<Seq<Seq<char>>>),
    Objects(Seq<ObjectView>),
}

impl View for Reply {
    type V = ReplyView;

    open spec fn view(&self) -> ReplyView {
        match self {
            Reply::Failed => ReplyView::Failed,
            Reply::Pipelines(page) => ReplyView::Pipelines(page@),
            Reply::Descriptions(descriptions) => ReplyView::Descriptions(
                descriptions.deep_view(),
            ),
            Reply::ObjectIds(ids) => ReplyView::ObjectIds(ids.deep_view()),
            Reply::Objects(objects) => ReplyView::Objects(objects.deep_view()),
        }
    }
}

impl DeepView for Reply {
    type V = ReplyView;

    open spec fn deep_view(&self) -> ReplyView {
        self@
    }
}

/// The mapping that a field list stands for: each key that comes with a
/// text value, mapped to the value of its last such entry.
pub open spec fn field_map(fields: Seq<FieldView>) -> Map<Seq<char>, Seq<char>>
    decreases fields.len(),
{
    if fields.len() == 0 {
        Map::empty()
    } else {
        let earlier = field_map(fields.drop_last());
        match fields.last().string_value {
            Some(value) => earlier.insert(fields.last().key, value),
            None => earlier,
        }
    }
}

/// Turns a field list into a mapping from key to text value. Entries
/// without a text value are skipped; of two entries with one key the later
/// one stands.
pub fn convert(fields: &Vec<Field>) -> (mapping: StringHashMap<String>)
    ensures
        field_texts(mapping@) == field_map(fields.deep_view()),
{
    let mut mapping: StringHashMap<String> = StringHashMap::new();
    let mut i: usize = 0;
    assert(field_texts(mapping@) =~= field_map(fields.deep_view().take(0)));
    while i < fields.len()
        invariant
            i <= fields@.len(),
            field_texts(mapping@) == field_map(fields.deep_view().take(i as int)),
        decreases fields@.len() - i,
    {
        let ghost before = mapping@;
        let field = &fields[i];
        if let Some(value) = &field.string_value {
            mapping.insert(field.key.clone(), value.clone());
        }
        proof {
            let all = fields.deep_view();
            assert(all.take(i + 1).drop_last() =~= all.take(i as int));
            assert(all.take(i + 1).last() == field@);
            match field@.string_value {
                Some(value) => {
                    assert(field_texts(mapping@) =~= field_texts(before).insert(field.key@, value));
                },
                None => {},
            }
        }
        i += 1;
    }
    assert(fields.deep_view().take(fields@.len() as int) =~= fields.deep_view());
    mapping
}

/// The identifiers that a pipeline listing carries, in listing order;
/// entries without an identifier are passed over.
pub open spec fn present_ids(names: Seq<IdNameView>) -> Seq<Seq<char>>
    decreases names.len(),
{
    if names.len() == 0 {
        Seq::empty()
    } else {
        let earlier = present_ids(names.drop_last());
        match names.last().id {
            Some(id) => earlier.push(id),
            None => earlier,
        }
    }
}

/// Collects the identifiers of a pipeline listing.
pub fn pipeline_ids(names: &Vec<PipelineIdName>) -> (ids: Vec<String>)
    ensures
        ids.deep_view() == present_ids(names.deep_view()),
{
    let mut ids: Vec<String> = Vec::new();
    let mut i: usize = 0;
    assert(ids.deep_view() =~= present_ids(names.deep_view().take(0)));
    while i < names.len()
        invariant
            i <= names@.len(),
            ids.deep_view() == present_ids(names.deep_view().take(i as int)),
        decreases names@.len() - i,
    {
        let ghost before = ids.deep_view();
        let entry = &names[i];
        if let Some(id) = &entry.id {
            ids.push(id.clone());
            assert(ids.deep_view() =~= before.push(id@));
        }
        proof {
            let all = names.deep_view();
            assert(all.take(i + 1).drop_last() =~= all.take(i as int));
            assert(all.take(i + 1).last() == entry@);
        }
        i += 1;
    }
    assert(names.deep_view().take(names@.len() as int) =~= names.deep_view());
    ids
}

/// The name filter: under the operation `include` a pipeline stays if its
/// name is on the list; under any other operation it stays if its name is
/// not on the list.
pub open spec fn keeps(name: Seq<char>, filters: Seq<Seq<char>>, operation: Seq<char>) -> bool {
    if operation == "include"@ {
        filters.contains(name)
    } else {
        !filters.contains(name)
    }
}

/// Whether `name` is one of `names`.
pub fn contains_name(names: &Vec<String>, name: &str) -> (found: bool)
    ensures
        found == names.deep_view().contains(name@),
{
    let mut i: usize = 0;
    while i < names.len()
        invariant
            i <= names@.len(),
            forall|j: int| 0 <= j < i ==> names.deep_view()[j] != name@,
        decreases names@.len() - i,
    {
        if same_text(names[i].as_str(), name) {
            assert(names.deep_view()[i as int] == name@);
            return true;
        }
        i += 1;
    }
    false
}

/// Applies the name filter to one pipeline name.
pub fn keeps_pipeline(name: &str, pipeline_name_filters: &Vec<String>, filter_operation: &str) -> (kept:
    bool)
    ensures
        kept == keeps(name@, pipeline_name_filters.deep_view(), filter_operation@),
{
    let listed = contains_name(pipeline_name_filters, name);
    if same_text(filter_operation, "include") {
        listed
    } else {
        !listed
    }
}

} // verus!
