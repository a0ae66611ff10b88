//! Locations in the object store, written as `s3://bucket/key`.

use vstd::prelude::*;

verus! {

/// The shape of a location: the scheme `s3`, `s3a` or `s3n`, a bucket name
/// without a slash, a slash, and the key, which runs to the end of the line.
pub const LOCATION_PATTERN: &'static str = "s3[an]?://(?P<bucket>[^/]+)/(?P<key>.*)";

/// A bucket and a key within it.
#[derive(Clone, Debug, PartialEq)]
pub struct S3Location {
    pub bucket: String,
    pub key: String,
}

/// A location as plain text.
#[verifier::ext_equal]
pub struct LocationView {
    pub bucket: Seq<char>,
    pub key: Seq<char>,
}

impl View for S3Location {
    type V = LocationView;

    open spec fn view(&self) -> LocationView {
        LocationView { bucket: self.bucket@, key: self.key@ }
    }
}

impl DeepView for S3Location {
    type V = LocationView;

    open spec fn deep_view(&self) -> LocationView {
        self@
    }
}

/// What the successive matches of the regular expression `pattern` in `text`
/// capture: for each match, in the order of the text, the text of its first
/// and of its second group.
pub uninterp spec fn captured_pairs(pattern: Seq<char>, text: Seq<char>) -> Seq<(Seq<char>, Seq<char>)>;

/// The location that a path stands for, given what the pattern captures in
/// it: the one match if there is exactly one, else an error that says
/// whether there were none or too many.
pub open spec fn location_of(captures: Seq<(Seq<char>, Seq<char>)>) -> Result<
    LocationView,
    Seq<char>,
> {
    if captures.len() == 1 {
        Ok(LocationView { bucket: captures[0].0, key: captures[0].1 })
    } else if captures.len() == 0 {
        Err("No results!"@)
    } else {
        Err("Too many results!"@)
    }
}

/// A location or an error message as plain text.
pub open spec fn outcome_view(outcome: Result<S3Location, String>) -> Result<
    LocationView,
    Seq<char>,
> {
    match outcome {
        Ok(location) => Ok(location@),
        Err(message) => Err(message@),
    }
}

/// Compiles `pattern` with `regex::Regex::new` and walks `text` with
/// `regex::Regex::captures_iter`, handing out the first two groups of each
/// match.
///
/// Trusted: what comes back is a function of the two texts alone, named
/// `captured_pairs`. Asked for the pattern of locations only, which compiles
/// and whose two groups take part in every match.
#[verifier::external_body]
fn capture_pairs(pattern: &str, text: &str) -> (found: Vec<(String, String)>)
    requires
        pattern@ == LOCATION_PATTERN@,
    ensures
        found.deep_view() == captured_pairs(pattern@, text@),
{
    let re = regex::Regex::new(pattern).unwrap();
    re.captures_iter(text).map(|cap| (cap[1].to_string(), cap[2].to_string())).collect()
}

impl S3Location {
    /// Reads a location from a path. The path must hold exactly one
    /// location.
    pub fn from(path: &str) -> (location: Result<S3Location, String>)
        ensures
            outcome_view(location) == location_of(captured_pairs(LOCATION_PATTERN@, path@)),
    {
        S3Location::from_captures(capture_pairs(LOCATION_PATTERN, path))
    }

    /// Chooses the location among the matches found in a path, each given
    /// as its bucket and its key.
    pub fn from_captures(captures: Vec<(String, String)>) -> (location: Result<S3Location, String>)
        ensures
            outcome_view(location) == location_of(captures.deep_view()),
    {
        let mut results = captures;
        let ghost all = results.deep_view();
        if results.len() == 1 {
            match results.pop() {
                Some((bucket, key)) => {
                    assert(all[0] == (bucket@, key@));
                    Ok(S3Location { bucket, key })
                },
                None => Err("No results!".to_owned()),
            }
        } else if results.len() == 0 {
            Err("No results!".to_owned())
        } else {
            Err("Too many results!".to_owned())
        }
    }
}

} // verus!
