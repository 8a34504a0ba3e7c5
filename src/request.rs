use vstd::prelude::*;
use vstd::string::*;
use vstd::utf8::{decode_utf8, valid_utf8};

verus! {

/// Relies on std::str::from_utf8: it succeeds exactly on valid UTF-8 and then
/// reads the bytes as the characters they encode; a failure is handed on as
/// the text of its `Utf8Error`.
#[verifier::external_body]
pub(crate) fn utf8_text(bytes: &[u8]) -> (r: Result<&str, String>)
    ensures
        r is Ok <==> valid_utf8(bytes@),
        r matches Ok(s) ==> s@ == decode_utf8(bytes@),
{
    match std::str::from_utf8(bytes) {
        Ok(text) => Ok(text),
        Err(err) => Err(err.to_string()),
    }
}


/// Unicode's White_Space property, which `char::is_whitespace` tests.
pub open spec fn white_space(c: char) -> bool {
    let v = c as u32;
    ||| 0x09 <= v <= 0x0D
    ||| v == 0x20
    ||| v == 0x85
    ||| v == 0xA0
    ||| v == 0x1680
    ||| 0x2000 <= v <= 0x200A
    ||| v == 0x2028
    ||| v == 0x2029
    ||| v == 0x202F
    ||| v == 0x205F
    ||| v == 0x3000
}

pub fn is_white_space(c: char) -> (r: bool)
    ensures
        r == white_space(c),
{
    let v = c as u32;
    (0x09 <= v && v <= 0x0D) || v == 0x20 || v == 0x85 || v == 0xA0 || v == 0x1680 || (0x2000 <= v
        && v <= 0x200A) || v == 0x2028 || v == 0x2029 || v == 0x202F || v == 0x205F || v == 0x3000
}

pub open spec fn crlf_at(s: Seq<char>, i: int) -> bool {
    i + 1 < s.len() && s[i] == '\r' && s[i + 1] == '\n'
}

/// The first index from `i` on where a CR LF pair starts, or the length.
pub open spec fn line_end(s: Seq<char>, i: int) -> int
    decreases s.len() - i,
{
    if i < 0 || i >= s.len() {
        s.len() as int
    } else if crlf_at(s, i) {
        i
    } else {
        line_end(s, i + 1)
    }
}

/// The first index from `i` on that holds no white space, or the length.
pub open spec fn skip_space(s: Seq<char>, i: int) -> int
    decreases s.len() - i,
{
    if i < 0 || i >= s.len() {
        s.len() as int
    } else if !white_space(s[i]) {
        i
    } else {
        skip_space(s, i + 1)
    }
}

/// The first index from `i` on that holds white space, or the length.
pub open spec fn skip_word(s: Seq<char>, i: int) -> int
    decreases s.len() - i,
{
    if i < 0 || i >= s.len() {
        s.len() as int
    } else if white_space(s[i]) {
        i
    } else {
        skip_word(s, i + 1)
    }
}

/// The request's first line: everything before the first CR LF.
pub open spec fn request_line(s: Seq<char>) -> Seq<char> {
    s.subrange(0, line_end(s, 0))
}

/// The second white-space separated word of the request line (the first is
/// the method), if the line has two words.
pub open spec fn request_target(s: Seq<char>) -> Option<Seq<char>> {
    let l = request_line(s);
    let a = skip_space(l, 0);
    let b = skip_word(l, a);
    let c = skip_space(l, b);
    let d = skip_word(l, c);
    if a >= l.len() || c >= l.len() {
        None
    } else {
        Some(l.subrange(c, d))
    }
}

proof fn lemma_skip_bounds(s: Seq<char>, i: int)
    requires
        0 <= i <= s.len(),
    ensures
        i <= skip_space(s, i) <= s.len(),
        i <= skip_word(s, i) <= s.len(),
        i <= line_end(s, i) <= s.len(),
    decreases s.len() - i,
{
    if i < s.len() {
        lemma_skip_bounds(s, i + 1);
    }
}

fn find_line_end(s: &str, n: usize) -> (r: usize)
    requires
        n == s@.len(),
    ensures
        r == line_end(s@, 0),
{
    let mut i: usize = 0;
    while i < n
        invariant
            n == s@.len(),
            i <= n,
            line_end(s@, i as int) == line_end(s@, 0),
        decreases n - i,
    {
        if s.get_char(i) == '\r' && i + 1 < n && s.get_char(i + 1) == '\n' {
            return i;
        }
        i = i + 1;
    }
    i
}

/// First index in `from..end` whose white space status is `space`, or `end`.
fn scan(s: &str, from: usize, end: usize, space: bool) -> (r: usize)
    requires
        from <= end <= s@.len(),
    ensures
        space ==> r == skip_word(s@.subrange(0, end as int), from as int),
        !space ==> r == skip_space(s@.subrange(0, end as int), from as int),
        from <= r <= end,
{
    let ghost l = s@.subrange(0, end as int);
    let mut i: usize = from;
    while i < end
        invariant
            from <= i <= end <= s@.len(),
            l == s@.subrange(0, end as int),
            space ==> skip_word(l, i as int) == skip_word(l, from as int),
            !space ==> skip_space(l, i as int) == skip_space(l, from as int),
        decreases end - i,
    {
        if is_white_space(s.get_char(i)) == space {
            return i;
        }
        i = i + 1;
    }
    i
}

/// Reads the request target from the first line of an HTTP request.
pub fn parse_request_target(request: &str) -> (r: Option<String>)
    ensures
        r matches Some(t) ==> request_target(request@) == Some(t@),
        r is None <==> request_target(request@) is None,
{
    let n = request.unicode_len();
    let end = find_line_end(request, n);
    proof {
        lemma_skip_bounds(request@, 0);
    }
    let a = scan(request, 0, end, false);
    let b = scan(request, a, end, true);
    let c = scan(request, b, end, false);
    let d = scan(request, c, end, true);
    if a >= end || c >= end {
        None
    } else {
        let target = request.substring_char(c, d);
        proof {
            assert(target@ =~= request_line(request@).subrange(c as int, d as int));
        }
        Some(String::from_str(target))
    }
}

} // verus!
