//! Naming and finding the files of a downloaded export archive.

use vstd::prelude::*;

use crate::text::{ends_with, has_suffix};

verus! {

#[verifier::external_type_specification]
#[verifier::external_body]
pub struct ExUrlParseError(url::ParseError);

/// What the `url` crate makes of a text: `None` when it is no URL; else the
/// segments of its path, `None` for a URL that cannot be a base.
pub uninterp spec fn url_path_segments(url: Seq<char>) -> Option<Option<Seq<Seq<char>>>>;

pub open spec fn texts_view(v: Seq<String>) -> Seq<Seq<char>> {
    v.map_values(|s: String| s@)
}

/// Relies on `url::Url::parse` and `Url::path_segments`: the segments of the
/// parsed URL's path, in order.
#[verifier::external_body]
fn path_segments(url: &str) -> (r: Result<Option<Vec<String>>, url::ParseError>)
    ensures
        r is Ok <==> url_path_segments(url@) is Some,
        r matches Ok(x) ==> url_path_segments(url@) == Some(
            match x {
                Some(v) => Some(texts_view(v@)),
                None => None,
            },
        ),
{
    match url::Url::parse(url) {
        Ok(u) => Ok(u.path_segments().map(|segments| segments.map(|s| s.to_string()).collect())),
        Err(e) => Err(e),
    }
}

/// The name under which a download is stored, given the segments of the
/// URL's path: the last segment, or `file.zip` when there is none.
pub open spec fn stored_name(segments: Option<Seq<Seq<char>>>) -> Seq<char> {
    match segments {
        Some(v) => if v.len() > 0 {
            v.last()
        } else {
            "file.zip"@
        },
        None => "file.zip"@,
    }
}

/// The name under which a download from `url` is stored: the last segment of
/// its path, or `file.zip` when the URL has no path segments.
pub fn download_file_name(url: &str) -> (r: Result<String, url::ParseError>)
    ensures
        r is Ok <==> url_path_segments(url@) is Some,
        r matches Ok(name) ==> name@ == stored_name(url_path_segments(url@)->Some_0),
{
    match path_segments(url) {
        Ok(Some(segments)) => {
            let n = segments.len();
            if n > 0 {
                Ok(segments[n - 1].clone())
            } else {
                Ok("file.zip".to_owned())
            }
        },
        Ok(None) => Ok("file.zip".to_owned()),
        Err(e) => Err(e),
    }
}

/// The lower-case form that `str::to_lowercase` gives.
pub uninterp spec fn lowercase_of(s: Seq<char>) -> Seq<char>;

/// Relies on `str::to_lowercase`: the result depends on the characters alone.
#[verifier::external_body]
fn lowercase(s: &str) -> (r: String)
    ensures
        r@ == lowercase_of(s@),
{
    s.to_lowercase()
}

/// A file name with the extension `.csv`, in any case.
pub open spec fn is_csv(name: Seq<char>) -> bool {
    has_suffix(lowercase_of(name), ".csv"@)
}

/// Whether `name` is that of a CSV file.
pub fn is_csv_name(name: &str) -> (r: bool)
    ensures
        r == is_csv(name@),
{
    let lower = lowercase(name);
    ends_with(lower.as_str(), ".csv")
}

/// The position of the last CSV file among `names`.
pub fn pick_csv(names: &Vec<String>) -> (r: Option<usize>)
    ensures
        r is None <==> forall|j: int| 0 <= j < names@.len() ==> !is_csv(#[trigger] names@[j]@),
        r matches Some(i) ==> i < names@.len() && is_csv(names@[i as int]@) && forall|j: int|
            i < j < names@.len() ==> !is_csv(#[trigger] names@[j]@),
{
    let mut i: usize = names.len();
    while i > 0
        invariant
            i <= names@.len(),
            forall|j: int| i <= j < names@.len() ==> !is_csv(#[trigger] names@[j]@),
        decreases i,
    {
        i = i - 1;
        if is_csv_name(names[i].as_str()) {
            return Some(i);
        }
    }
    None
}

} // verus!
