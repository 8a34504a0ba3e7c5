use vstd::prelude::*;
use vstd::string::*;

use crate::callback::CallbackOutcome;

verus! {

/// The URL-safe base64 alphabet: `A`-`Z`, `a`-`z`, `0`-`9`, `-`, `_`.
pub open spec fn url_safe_symbol(v: int) -> char {
    if v < 26 {
        ((65 + v) as u8) as char
    } else if v < 52 {
        ((97 + v - 26) as u8) as char
    } else if v < 62 {
        ((48 + v - 52) as u8) as char
    } else if v == 62 {
        '-'
    } else {
        '_'
    }
}

/// Unpadded base64 text over the URL-safe alphabet: each group of three
/// bytes gives four six-bit symbols; a final group of one or two bytes gives
/// two or three symbols, its missing low bits zero.
pub open spec fn base64_url_unpadded(b: Seq<u8>) -> Seq<char>
    decreases b.len(),
{
    let b0 = if b.len() > 0 { b[0] as int } else { 0 };
    let b1 = if b.len() > 1 { b[1] as int } else { 0 };
    let b2 = if b.len() > 2 { b[2] as int } else { 0 };
    if b.len() == 0 {
        Seq::empty()
    } else if b.len() == 1 {
        seq![url_safe_symbol(b0 / 4), url_safe_symbol((b0 % 4) * 16)]
    } else if b.len() == 2 {
        seq![url_safe_symbol(b0 / 4), url_safe_symbol((b0 % 4) * 16 + b1 / 16), url_safe_symbol((b1 % 16) * 4)]
    } else {
        seq![
            url_safe_symbol(b0 / 4),
            url_safe_symbol((b0 % 4) * 16 + b1 / 16),
            url_safe_symbol((b1 % 16) * 4 + b2 / 64),
            url_safe_symbol(b2 % 64),
        ] + base64_url_unpadded(b.subrange(3, b.len() as int))
    }
}

/// The encoding has two, three or four symbols per started group of three bytes.
pub proof fn lemma_base64_url_len(b: Seq<u8>)
    ensures
        base64_url_unpadded(b).len() == (4 * b.len() + 2) / 3,
    decreases b.len(),
{
    if b.len() >= 3 {
        lemma_base64_url_len(b.subrange(3, b.len() as int));
    }
}

/// Relies on base64's URL_SAFE_NO_PAD engine and `Engine::encode`: the bytes
/// as unpadded URL-safe base64. Its length computation panics on overflow,
/// hence the bound.
#[verifier::external_body]
fn encode_url_safe(bytes: &[u8]) -> (r: String)
    requires
        bytes@.len() <= 0x1000_0000,
    ensures
        r@ == base64_url_unpadded(bytes@),
{
    base64::Engine::encode(&base64::engine::general_purpose::URL_SAFE_NO_PAD, bytes)
}

/// Relies on rand's `OsRng` and `RngCore::try_fill_bytes`: fills the buffer
/// with bytes from the operating system, reporting failure instead of panicking.
/// Nothing is known of the bytes.
#[verifier::external_body]
fn os_random_bytes(buf: &mut [u8]) -> (ok: bool)
    ensures
        final(buf)@.len() == old(buf)@.len(),
{
    rand::RngCore::try_fill_bytes(&mut rand::rngs::OsRng, buf).is_ok()
}

/// Number of random bytes in a sign-in state token.
pub const STATE_BYTES: usize = 32;

/// Encodes state bytes as a sign-in state token.
pub fn state_token(bytes: &[u8]) -> (r: String)
    requires
        bytes@.len() == STATE_BYTES,
    ensures
        r@ == base64_url_unpadded(bytes@),
        r@.len() == 43,
{
    proof {
        lemma_base64_url_len(bytes@);
    }
    encode_url_safe(bytes)
}

/// A fresh sign-in state token from operating-system randomness: the
/// encoding of some 32 bytes, or `None` when no random bytes could be had.
pub fn new_state_token() -> (r: Option<String>)
    ensures
        r matches Some(t) ==> t@.len() == 43 && exists|b: Seq<u8>| b.len() == STATE_BYTES && t@ == base64_url_unpadded(b),
{
    let mut buf = [0u8; 32];
    if !os_random_bytes(&mut buf) {
        return None;
    }
    let t = state_token(&buf);
    proof {
        lemma_base64_url_len(buf@);
    }
    Some(t)
}

pub open spec fn reason_of(status: u16) -> Seq<char> {
    if status == 400 {
        "Bad Request"@
    } else if status == 404 {
        "Not Found"@
    } else {
        "OK"@
    }
}

/// The reason phrase sent with a status code.
pub fn reason_phrase(status: u16) -> (r: &'static str)
    ensures
        r@ == reason_of(status),
{
    match status {
        400 => "Bad Request",
        404 => "Not Found",
        _ => "OK",
    }
}

/// The text of one decimal digit.
pub open spec fn digit_text(d: int) -> Seq<char> {
    if d == 0 { "0"@ } else if d == 1 { "1"@ } else if d == 2 { "2"@ } else if d == 3 { "3"@ }
    else if d == 4 { "4"@ } else if d == 5 { "5"@ } else if d == 6 { "6"@ } else if d == 7 { "7"@ }
    else if d == 8 { "8"@ } else { "9"@ }
}

/// A number in decimal, without leading zeros.
pub open spec fn decimal(n: nat) -> Seq<char>
    decreases n,
{
    if n < 10 {
        digit_text(n as int)
    } else {
        decimal(n / 10) + digit_text((n % 10) as int)
    }
}

fn digit_str(d: usize) -> (r: &'static str)
    requires
        d < 10,
    ensures
        r@ == digit_text(d as int),
{
    match d {
        0 => "0",
        1 => "1",
        2 => "2",
        3 => "3",
        4 => "4",
        5 => "5",
        6 => "6",
        7 => "7",
        8 => "8",
        _ => "9",
    }
}

/// Writes a number in decimal.
pub fn decimal_text(n: usize) -> (r: String)
    ensures
        r@ == decimal(n as nat),
    decreases n,
{
    if n < 10 {
        String::from_str(digit_str(n))
    } else {
        decimal_text(n / 10).concat(digit_str(n % 10))
    }
}

/// The full HTTP response: status line, content length in bytes of the
/// body, content type, a blank line, then the body.
pub open spec fn response_spec(status: u16, body: &str) -> Seq<char> {
    "HTTP/1.1 "@ + decimal(status as nat) + " "@ + reason_of(status) + "\r\nContent-Length: "@
        + decimal(body.len() as nat) + "\r\nContent-Type: text/html; charset=utf-8\r\n\r\n"@ + body@
}

/// Writes the HTTP response that carries `body` with the given status.
pub fn response_text(status: u16, body: &str) -> (r: String)
    ensures
        r@ == response_spec(status, body),
{
    String::from_str("HTTP/1.1 ")
        .concat(decimal_text(status as usize).as_str())
        .concat(" ")
        .concat(reason_phrase(status))
        .concat("\r\nContent-Length: ")
        .concat(decimal_text(body.len()).as_str())
        .concat("\r\nContent-Type: text/html; charset=utf-8\r\n\r\n")
        .concat(body)
}

pub open spec fn sign_in_page() -> Seq<char> {
    "<html><body><h1>Sign-in complete. You can close this window.</h1></body></html>"@
}

/// The status and the body that answer a callback request.
pub fn callback_response(outcome: &CallbackOutcome) -> (r: (u16, String))
    ensures
        match outcome {
            CallbackOutcome::NotFound => r.0 == 404 && r.1@ == "Not found"@,
            CallbackOutcome::Denied { description, .. } => r.0 == 400 && r.1@ == "Authentication failed: "@
                + description@,
            CallbackOutcome::MissingCode => r.0 == 400 && r.1@ == "Missing authorization code"@,
            CallbackOutcome::Code(_) => r.0 == 200 && r.1@ == sign_in_page(),
        },
{
    match outcome {
        CallbackOutcome::NotFound => (404, String::from_str("Not found")),
        CallbackOutcome::Denied { description, .. } => (
            400,
            String::from_str("Authentication failed: ").concat(description.as_str()),
        ),
        CallbackOutcome::MissingCode => (400, String::from_str("Missing authorization code")),
        CallbackOutcome::Code(_) => (
            200,
            String::from_str("<html><body><h1>Sign-in complete. You can close this window.</h1></body></html>"),
        ),
    }
}

/// What the listener makes of an outcome: keep waiting (`Ok(None)`), deliver
/// the code, or stop with the provider's error.
pub fn callback_result(outcome: CallbackOutcome) -> (r: Result<Option<String>, String>)
    ensures
        match outcome {
            CallbackOutcome::NotFound => r == Ok::<Option<String>, String>(None),
            CallbackOutcome::MissingCode => r == Ok::<Option<String>, String>(None),
            CallbackOutcome::Code(c) => r matches Ok(Some(v)) && v@ == c@,
            CallbackOutcome::Denied { error, description } => r matches Err(m) && m@ == "Kakao OAuth error: "@
                + error@ + " — "@ + description@,
        },
{
    match outcome {
        CallbackOutcome::NotFound => Ok(None),
        CallbackOutcome::MissingCode => Ok(None),
        CallbackOutcome::Code(c) => Ok(Some(c)),
        CallbackOutcome::Denied { error, description } => Err(
            String::from_str("Kakao OAuth error: ").concat(error.as_str()).concat(" — ").concat(
                description.as_str(),
            ),
        ),
    }
}

/// What the callback listener observed since its last decision.
#[derive(Debug)]
pub enum ListenerEvent {
    /// The listener has just been set up.
    Started,
    /// The pause asked for is over.
    Paused,
    /// No connection was waiting.
    NothingPending,
    /// A connection was served: the code, `None` to keep waiting, or a failure.
    Served(Result<Option<String>, String>),
    /// Accepting a connection failed; the text of the error.
    AcceptFailed(String),
}

/// What the callback listener does next.
#[derive(Debug)]
pub enum ListenerAction {
    /// Accept the next connection.
    Accept,
    /// Pause briefly, then report `Paused`.
    Pause,
    /// Stop with the code or an error.
    Finish(Result<String, String>),
}

/// Decides the callback listener's next step. Before every accept the time
/// spent is checked against the timeout; a served code or any failure ends
/// the wait; an empty queue asks for a pause.
pub fn listener_step(elapsed_ms: u64, timeout_ms: u64, event: ListenerEvent) -> (r: ListenerAction)
    ensures
        match event {
            ListenerEvent::NothingPending => r is Pause,
            ListenerEvent::Served(Ok(Some(code))) => r matches ListenerAction::Finish(Ok(c)) && c@ == code@,
            ListenerEvent::Served(Err(e)) => r matches ListenerAction::Finish(Err(m)) && m@ == e@,
            ListenerEvent::AcceptFailed(e) => r matches ListenerAction::Finish(Err(m))
                && m@ == "Kakao OAuth listener failed: "@ + e@,
            _ => if elapsed_ms < timeout_ms {
                r is Accept
            } else {
                r matches ListenerAction::Finish(Err(m)) && m@ == "Timed out waiting for Kakao authentication"@
            },
        },
{
    match event {
        ListenerEvent::NothingPending => ListenerAction::Pause,
        ListenerEvent::Served(Ok(Some(code))) => ListenerAction::Finish(Ok(code)),
        ListenerEvent::Served(Err(e)) => ListenerAction::Finish(Err(e)),
        ListenerEvent::AcceptFailed(e) => ListenerAction::Finish(
            Err(String::from_str("Kakao OAuth listener failed: ").concat(e.as_str())),
        ),
        _ => {
            if elapsed_ms < timeout_ms {
                ListenerAction::Accept
            } else {
                ListenerAction::Finish(Err(String::from_str("Timed out waiting for Kakao authentication")))
            }
        },
    }
}

} // verus!
