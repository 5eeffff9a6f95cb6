use bride::parser::analyze;
use bride::queue::{sentinel_state, ServerState};
use bride::response::Response;

#[test]
fn success_with_body() {
    let r = analyze("cmd arg1 :: <OK>\nline1\nline2");
    assert_eq!(r, Response::Success("cmd arg1".to_string(), "line1\nline2".to_string()));
}

#[test]
fn success_decomposes() {
    let r = analyze("cmd arg1 :: <OK>\nline1\nline2");
    let (err, id, args, body) = r.decompose();
    assert!(!err);
    assert_eq!(id, "cmd");
    assert_eq!(args, "arg1");
    assert_eq!(body, "line1\nline2");
}

#[test]
fn error_with_body() {
    let r = analyze("cmd :: <ERROR>\nbad input");
    assert_eq!(r, Response::Error("cmd".to_string(), "bad input".to_string()));
}

#[test]
fn error_decomposes() {
    let r = analyze("cmd :: <ERROR>\nbad input");
    let (err, id, args, body) = r.decompose();
    assert!(err);
    assert_eq!(id, "cmd");
    assert_eq!(args, "");
    assert_eq!(body, "bad input");
}

#[test]
fn ready_sentinel_is_nothing() {
    assert_eq!(analyze("<READY>"), Response::Nothing);
    assert_eq!(sentinel_state("<READY>"), Some(ServerState::Ready));
}

#[test]
fn garbage_is_nothing_and_no_sentinel() {
    assert_eq!(analyze("garbage-no-separator"), Response::Nothing);
    assert_eq!(sentinel_state("garbage-no-separator"), None);
}

#[test]
fn all_sentinels_are_nothing() {
    for s in ["<READY>", "<PAUSE>", "<EXIT>", "monster>"] {
        assert_eq!(analyze(s), Response::Nothing);
    }
    assert_eq!(sentinel_state("<PAUSE>"), Some(ServerState::Paused));
    assert_eq!(sentinel_state("<EXIT>"), Some(ServerState::Finished));
    assert_eq!(sentinel_state("monster>"), Some(ServerState::Prompt));
}

#[test]
fn unknown_status_is_nothing() {
    assert_eq!(analyze("cmd :: <WEIRD>\nbody"), Response::Nothing);
}

#[test]
fn empty_payload_is_nothing() {
    assert_eq!(analyze(""), Response::Nothing);
}

#[test]
fn empty_header_is_nothing() {
    assert_eq!(analyze(" :: <OK>"), Response::Nothing);
}

#[test]
fn three_parts_are_nothing() {
    assert_eq!(analyze("a :: b :: <OK>"), Response::Nothing);
}

#[test]
fn body_lines_are_trimmed_and_rejoined() {
    let r = analyze("cmd :: <OK>\n  a  \n\tb\t\nc");
    assert_eq!(r, Response::Success("cmd".to_string(), "a\nb\nc".to_string()));
}

#[test]
fn no_body_gives_empty_result() {
    let r = analyze("cmd :: <OK>");
    assert_eq!(r, Response::Success("cmd".to_string(), String::new()));
    assert_eq!(r.result(), "");
}

#[test]
fn nothing_has_empty_parts() {
    let (err, id, args, body) = Response::Nothing.decompose();
    assert!(!err);
    assert_eq!(id, "");
    assert_eq!(args, "");
    assert_eq!(body, "");
}

#[test]
fn identifier_and_args_split_on_first_space() {
    let r = Response::Success("move 1 2 3".to_string(), String::new());
    assert_eq!(r.identifier(), "move");
    assert_eq!(r.args(), "1 2 3");
}
