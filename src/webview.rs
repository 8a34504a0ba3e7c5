use vstd::prelude::*;
use vstd::string::*;

verus! {

/// The query that marks an overlay's page: `<param>=1`, appended with `&`
/// to an existing non-empty query.
pub open spec fn overlay_query_spec(existing: Option<Seq<char>>, param: Seq<char>) -> Seq<char> {
    match existing {
        Some(q) if q.len() > 0 => q + "&"@ + param + "=1"@,
        _ => param + "=1"@,
    }
}

/// Builds the query string of an overlay page's URL.
pub fn overlay_query(existing: Option<&str>, param: &str) -> (r: String)
    ensures
        r@ == overlay_query_spec(
            match existing {
                Some(q) => Some(q@),
                None => None,
            },
            param@,
        ),
{
    match existing {
        Some(q) if !q.is_empty() => String::from_str(q).concat("&").concat(param).concat("=1"),
        _ => String::from_str(param).concat("=1"),
    }
}

/// The path, relative to the bundled assets, of an overlay's page.
pub fn overlay_page_path(param: &str) -> (r: String)
    ensures
        r@ == "index.html?"@ + param@ + "=1"@,
{
    String::from_str("index.html?").concat(param).concat("=1")
}

} // verus!
