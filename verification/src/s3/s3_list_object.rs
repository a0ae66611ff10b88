//! One entry of a bucket listing.

use vstd::prelude::*;

verus! {

/// What the object store reports of an object, as far as a listing reads
/// it. The store may leave any of it out.
#[derive(Debug, Clone)]
pub struct Object {
    pub key: Option<String>,
    pub last_modified: Option<String>,
    pub size: Option<i64>,
}

/// The report of an object as plain values.
#[verifier::ext_equal]
pub struct ObjectReportView {
    pub key: Option<Seq<char>>,
    pub last_modified: Option<Seq<char>>,
    pub size: Option<i64>,
}

impl View for Object {
    type V = ObjectReportView;

    open spec fn view(&self) -> ObjectReportView {
        ObjectReportView {
            key: self.key.deep_view(),
            last_modified: self.last_modified.deep_view(),
            size: self.size,
        }
    }
}

impl DeepView for Object {
    type V = ObjectReportView;

    open spec fn deep_view(&self) -> ObjectReportView {
        self@
    }
}

/// Whether the report names the key, the time of the last change and the
/// size of the object.
pub open spec fn complete(report: ObjectReportView) -> bool {
    report.key is Some && report.last_modified is Some && report.size is Some
}

/// An object of a bucket, as listed.
#[derive(Debug)]
pub struct S3ListObject {
    pub last_modified: String,
    pub size: i64,
    pub key: String,
}

/// A listing entry as plain values.
#[verifier::ext_equal]
pub struct ListObjectView {
    pub last_modified: Seq<char>,
    pub size: i64,
    pub key: Seq<char>,
}

impl View for S3ListObject {
    type V = ListObjectView;

    open spec fn view(&self) -> ListObjectView {
        ListObjectView { last_modified: self.last_modified@, size: self.size, key: self.key@ }
    }
}

impl DeepView for S3ListObject {
    type V = ListObjectView;

    open spec fn deep_view(&self) -> ListObjectView {
        self@
    }
}

/// The listing entry that a complete report stands for.
pub open spec fn listed(report: ObjectReportView) -> ListObjectView {
    ListObjectView {
        last_modified: report.last_modified->0,
        size: report.size->0,
        key: report.key->0,
    }
}

impl Object {
    /// Whether nothing that a listing reads is left out.
    pub fn is_complete(&self) -> (whole: bool)
        ensures
            whole == complete(self@),
    {
        self.key.is_some() && self.last_modified.is_some() && self.size.is_some()
    }
}

impl S3ListObject {
    /// The listing entry of a reported object. The report must be complete.
    pub fn from(o: &Object) -> (entry: S3ListObject)
        requires
            complete(o@),
        ensures
            entry@ == listed(o@),
    {
        let last_modified = match &o.last_modified {
            Some(text) => text.clone(),
            None => String::new(),
        };
        let size: i64 = match o.size {
            Some(size) => size,
            None => 0,
        };
        let key = match &o.key {
            Some(text) => text.clone(),
            None => String::new(),
        };
        S3ListObject { last_modified, size, key }
    }
}

} // verus!
