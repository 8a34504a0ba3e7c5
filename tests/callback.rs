use overlay_follower::callback::{classify_callback, handle_request, CallbackOutcome, RequestError};
use overlay_follower::oauth::{
    callback_response, callback_result, decimal_text, listener_step, new_state_token, reason_phrase, response_text,
    state_token, ListenerAction, ListenerEvent,
};
use overlay_follower::payloads::{KakaoAuthCodePayload, KeyboardListenerErrorPayload, KeysHeldPayload};
use overlay_follower::request::{is_white_space, parse_request_target};

fn pairs(items: &[(&str, &str)]) -> Vec<(String, String)> {
    items.iter().map(|(k, v)| (k.to_string(), v.to_string())).collect()
}

#[test]
fn request_target_is_second_word() {
    assert_eq!(parse_request_target("GET /callback?code=1 HTTP/1.1\r\nHost: x\r\n\r\n"), Some("/callback?code=1".to_string()));
    assert_eq!(parse_request_target("  GET\t\t/a  "), Some("/a".to_string()));
    assert_eq!(parse_request_target("GET\r\n/a b"), None);
    assert_eq!(parse_request_target(""), None);
    assert_eq!(parse_request_target("GET\u{3000}/x"), Some("/x".to_string()));
}

#[test]
fn white_space_follows_unicode() {
    for c in [' ', '\t', '\n', '\u{0B}', '\u{0C}', '\r', '\u{85}', '\u{A0}', '\u{2003}', '\u{3000}'] {
        assert!(is_white_space(c));
        assert!(c.is_whitespace());
    }
    for c in ['a', '/', '\u{200B}', '\u{0}'] {
        assert!(!is_white_space(c));
        assert!(!c.is_whitespace());
    }
}

#[test]
fn classify_paths_and_queries() {
    assert!(matches!(classify_callback(&"/other".to_string(), &pairs(&[("code", "1")])), CallbackOutcome::NotFound));
    assert!(matches!(classify_callback(&"/callback".to_string(), &pairs(&[])), CallbackOutcome::MissingCode));
    match classify_callback(&"/callback".to_string(), &pairs(&[("code", "a"), ("code", "b")])) {
        CallbackOutcome::Code(c) => assert_eq!(c, "b"),
        other => panic!("unexpected {:?}", other),
    }
    match classify_callback(&"/callback".to_string(), &pairs(&[("code", "a"), ("error", "denied")])) {
        CallbackOutcome::Denied { error, description } => {
            assert_eq!(error, "denied");
            assert_eq!(description, "Unknown error");
        },
        other => panic!("unexpected {:?}", other),
    }
}

#[test]
fn handle_request_reads_code() {
    match handle_request(b"GET /callback?code=abc%20d&state=s HTTP/1.1\r\nHost: localhost\r\n\r\n") {
        Ok(CallbackOutcome::Code(c)) => assert_eq!(c, "abc d"),
        other => panic!("unexpected {:?}", other),
    }
}

#[test]
fn handle_request_reads_error() {
    match handle_request(b"GET /callback?error=access_denied&error_description=User+denied HTTP/1.1\r\n\r\n") {
        Ok(CallbackOutcome::Denied { error, description }) => {
            assert_eq!(error, "access_denied");
            assert_eq!(description, "User denied");
        },
        other => panic!("unexpected {:?}", other),
    }
}

#[test]
fn handle_request_other_path_and_missing_code() {
    assert!(matches!(handle_request(b"GET /favicon.ico HTTP/1.1\r\n\r\n"), Ok(CallbackOutcome::NotFound)));
    assert!(matches!(handle_request(b"GET /callback?state=1 HTTP/1.1\r\n\r\n"), Ok(CallbackOutcome::MissingCode)));
}

#[test]
fn handle_request_errors() {
    assert!(matches!(handle_request(b""), Err(RequestError::Empty)));
    match handle_request(&[0x47, 0xff, 0x20]) {
        Err(RequestError::InvalidUtf8(detail)) => assert!(detail.contains("utf-8")),
        other => panic!("unexpected {:?}", other),
    }
    assert!(matches!(handle_request(b"GET\r\n"), Err(RequestError::MalformedRequestLine)));
    match handle_request(b"GET :99999999999 HTTP/1.1\r\n") {
        Err(RequestError::InvalidUrl(detail)) => assert!(!detail.is_empty()),
        other => panic!("unexpected {:?}", other),
    }
}

#[test]
fn responses_and_results() {
    assert_eq!(reason_phrase(200), "OK");
    assert_eq!(reason_phrase(400), "Bad Request");
    assert_eq!(reason_phrase(404), "Not Found");
    assert_eq!(reason_phrase(500), "OK");
    assert_eq!(callback_response(&CallbackOutcome::NotFound), (404, "Not found".to_string()));
    assert_eq!(callback_response(&CallbackOutcome::MissingCode), (400, "Missing authorization code".to_string()));
    let denied = CallbackOutcome::Denied { error: "e".to_string(), description: "why".to_string() };
    assert_eq!(callback_response(&denied), (400, "Authentication failed: why".to_string()));
    let code = callback_response(&CallbackOutcome::Code("c".to_string()));
    assert_eq!(code.0, 200);
    assert!(code.1.contains("Sign-in complete"));
    assert_eq!(callback_result(CallbackOutcome::NotFound), Ok(None));
    assert_eq!(callback_result(CallbackOutcome::MissingCode), Ok(None));
    assert_eq!(callback_result(CallbackOutcome::Code("c".to_string())), Ok(Some("c".to_string())));
    assert_eq!(callback_result(denied), Err("Kakao OAuth error: e \u{2014} why".to_string()));
}

#[test]
fn state_tokens() {
    let bytes = [0xffu8; 32];
    let t = state_token(&bytes);
    assert_eq!(t.len(), 43);
    assert!(t.starts_with("____"));
    assert_eq!(state_token(&[0u8; 32]), "A".repeat(43));
    let counting: Vec<u8> = (0u8..32).collect();
    assert_eq!(state_token(&counting), "AAECAwQFBgcICQoLDA0ODxAREhMUFRYXGBkaGxwdHh8");
    let fresh = new_state_token().unwrap();
    assert_eq!(fresh.len(), 43);
}

#[test]
fn payloads_hold_their_fields() {
    let keys = KeysHeldPayload { keys: vec!["Shift".to_string()] };
    assert_eq!(keys.clone().keys, vec!["Shift".to_string()]);
    let err = KeyboardListenerErrorPayload { message: "m".to_string(), consecutive_failures: 3 };
    assert_eq!(err.consecutive_failures, 3);
    let code = KakaoAuthCodePayload { code: "c".to_string() };
    assert_eq!(code.code, "c");
}

#[test]
fn decimal_and_response_text() {
    assert_eq!(decimal_text(0), "0");
    assert_eq!(decimal_text(7), "7");
    assert_eq!(decimal_text(4096), "4096");
    assert_eq!(
        response_text(404, "Not found"),
        "HTTP/1.1 404 Not Found\r\nContent-Length: 9\r\nContent-Type: text/html; charset=utf-8\r\n\r\nNot found"
    );
    // the length counts bytes, not characters
    assert_eq!(
        response_text(400, "\u{e9}"),
        "HTTP/1.1 400 Bad Request\r\nContent-Length: 2\r\nContent-Type: text/html; charset=utf-8\r\n\r\n\u{e9}"
    );
}

#[test]
fn listener_steps() {
    assert!(matches!(listener_step(0, 1000, ListenerEvent::Started), ListenerAction::Accept));
    assert!(matches!(listener_step(0, 0, ListenerEvent::Started), ListenerAction::Finish(Err(m)) if m == "Timed out waiting for Kakao authentication"));
    assert!(matches!(listener_step(10, 1000, ListenerEvent::NothingPending), ListenerAction::Pause));
    assert!(matches!(listener_step(999, 1000, ListenerEvent::Paused), ListenerAction::Accept));
    assert!(matches!(listener_step(1000, 1000, ListenerEvent::Paused), ListenerAction::Finish(Err(_))));
    assert!(matches!(listener_step(10, 1000, ListenerEvent::Served(Ok(None))), ListenerAction::Accept));
    assert!(matches!(listener_step(2000, 1000, ListenerEvent::Served(Ok(Some("c".to_string())))), ListenerAction::Finish(Ok(c)) if c == "c"));
    assert!(matches!(listener_step(10, 1000, ListenerEvent::Served(Err("boom".to_string()))), ListenerAction::Finish(Err(m)) if m == "boom"));
    assert!(matches!(listener_step(10, 1000, ListenerEvent::AcceptFailed("x".to_string())), ListenerAction::Finish(Err(m)) if m == "Kakao OAuth listener failed: x"));
}
