use vstd::prelude::*;
use vstd::string::*;
use vstd::utf8::{decode_utf8, valid_utf8};

use crate::request::{parse_request_target, request_target, utf8_text};

verus! {

/// The path and the decoded query pairs, in order, of a parsed URL; `None`
/// where the text is no valid absolute URL.
pub uninterp spec fn url_parts(text: Seq<char>) -> Option<(Seq<char>, Seq<(Seq<char>, Seq<char>)>)>;

pub open spec fn pairs_view(p: Seq<(String, String)>) -> Seq<(Seq<char>, Seq<char>)> {
    p.map_values(|q: (String, String)| (q.0@, q.1@))
}

/// Relies on url::Url::parse, read through Url::path and Url::query_pairs:
/// the text of the `ParseError` where parsing fails, else the path and the
/// decoded query pairs in the order they appear.
#[verifier::external_body]
fn parse_url_parts(text: &str) -> (r: Result<(String, Vec<(String, String)>), String>)
    ensures
        r is Err <==> url_parts(text@) is None,
        r matches Ok(p) ==> url_parts(text@) == Some((p.0@, pairs_view(p.1@))),
{
    match url::Url::parse(text) {
        Ok(u) => Ok((u.path().to_string(), u.query_pairs().into_owned().collect())),
        Err(err) => Err(err.to_string()),
    }
}

/// What one request to the sign-in callback amounts to.
#[derive(Clone, Debug)]
pub enum CallbackOutcome {
    /// The request was for another path.
    NotFound,
    /// The provider reported an error.
    Denied { error: String, description: String },
    /// The callback came without an authorization code.
    MissingCode,
    /// The authorization code.
    Code(String),
}

/// Why a request could not be read; the decoding and parsing failures carry
/// the decoder's and the URL parser's own description.
#[derive(Clone, Debug)]
pub enum RequestError {
    Empty,
    InvalidUtf8(String),
    MalformedRequestLine,
    InvalidUrl(String),
}

/// The value of the last pair named `key`: later pairs override earlier ones.
pub open spec fn last_value(pairs: Seq<(Seq<char>, Seq<char>)>, key: Seq<char>) -> Option<Seq<char>>
    decreases pairs.len(),
{
    if pairs.len() == 0 {
        None
    } else if pairs.last().0 == key {
        Some(pairs.last().1)
    } else {
        last_value(pairs.drop_last(), key)
    }
}

/// The outcome for a callback URL's path and query pairs: another path is not
/// found; a reported error wins over a code; without a code the request is
/// incomplete.
pub open spec fn outcome_fits(o: CallbackOutcome, path: Seq<char>, pairs: Seq<(Seq<char>, Seq<char>)>) -> bool {
    if path != "/callback"@ {
        o is NotFound
    } else if last_value(pairs, "error"@) is Some {
        o matches CallbackOutcome::Denied { error, description } && error@ == last_value(pairs, "error"@)->Some_0
            && description@ == (match last_value(pairs, "error_description"@) {
                Some(d) => d,
                None => "Unknown error"@,
            })
    } else if last_value(pairs, "code"@) is None {
        o is MissingCode
    } else {
        o matches CallbackOutcome::Code(c) && c@ == last_value(pairs, "code"@)->Some_0
    }
}

/// Index of the last pair named `key`.
fn find_last(pairs: &Vec<(String, String)>, key: &String) -> (r: Option<usize>)
    ensures
        r matches Some(i) ==> i < pairs@.len() && last_value(pairs_view(pairs@), key@) == Some(pairs@[i as int].1@),
        r is None <==> last_value(pairs_view(pairs@), key@) is None,
{
    let mut found: Option<usize> = None;
    let mut i: usize = 0;
    while i < pairs.len()
        invariant
            i <= pairs@.len(),
            found matches Some(k) ==> k < i && last_value(pairs_view(pairs@.take(i as int)), key@) == Some(pairs@[k as int].1@),
            found is None <==> last_value(pairs_view(pairs@.take(i as int)), key@) is None,
        decreases pairs@.len() - i,
    {
        proof {
            assert(pairs_view(pairs@.take(i + 1)).drop_last() =~= pairs_view(pairs@.take(i as int)));
        }
        if pairs[i].0 == *key {
            found = Some(i);
        }
        i = i + 1;
    }
    proof {
        assert(pairs@.take(i as int) =~= pairs@);
    }
    found
}

/// Decides what a callback URL's path and query pairs amount to.
pub fn classify_callback(path: &String, pairs: &Vec<(String, String)>) -> (r: CallbackOutcome)
    ensures
        outcome_fits(r, path@, pairs_view(pairs@)),
{
    let callback_path = String::from_str("/callback");
    if !(*path == callback_path) {
        return CallbackOutcome::NotFound;
    }
    let error_key = String::from_str("error");
    if let Some(e) = find_last(pairs, &error_key) {
        let description_key = String::from_str("error_description");
        let description = match find_last(pairs, &description_key) {
            Some(d) => pairs[d].1.clone(),
            None => String::from_str("Unknown error"),
        };
        return CallbackOutcome::Denied { error: pairs[e].1.clone(), description };
    }
    let code_key = String::from_str("code");
    match find_last(pairs, &code_key) {
        Some(c) => CallbackOutcome::Code(pairs[c].1.clone()),
        None => CallbackOutcome::MissingCode,
    }
}

/// The URL that a request target names on the local callback server.
pub open spec fn local_url(target: Seq<char>) -> Seq<char> {
    "http://localhost"@ + target
}

/// Reads one request to the sign-in callback: the request line's target is
/// taken as a path on the local host and its query decides the outcome.
pub fn handle_request(request: &[u8]) -> (r: Result<CallbackOutcome, RequestError>)
    ensures
        (r matches Err(RequestError::Empty)) <==> request@.len() == 0,
        (r matches Err(RequestError::InvalidUtf8(_))) <==> request@.len() > 0 && !valid_utf8(request@),
        (r matches Err(RequestError::MalformedRequestLine)) <==> request@.len() > 0
            && valid_utf8(request@) && request_target(decode_utf8(request@)) is None,
        (r matches Err(RequestError::InvalidUrl(_))) <==> request@.len() > 0
            && valid_utf8(request@) && request_target(decode_utf8(request@)) is Some
            && url_parts(local_url(request_target(decode_utf8(request@))->Some_0)) is None,
        r matches Ok(o) ==> {
            let parts = url_parts(local_url(request_target(decode_utf8(request@))->Some_0));
            parts is Some && outcome_fits(o, parts->Some_0.0, parts->Some_0.1)
        },
{
    if request.len() == 0 {
        return Err(RequestError::Empty);
    }
    let text = match utf8_text(request) {
        Ok(t) => t,
        Err(detail) => {
            return Err(RequestError::InvalidUtf8(detail));
        },
    };
    let target = match parse_request_target(text) {
        Some(t) => t,
        None => {
            return Err(RequestError::MalformedRequestLine);
        },
    };
    let url = String::from_str("http://localhost").concat(target.as_str());
    match parse_url_parts(url.as_str()) {
        Ok((path, pairs)) => Ok(classify_callback(&path, &pairs)),
        Err(detail) => Err(RequestError::InvalidUrl(detail)),
    }
}

} // verus!
