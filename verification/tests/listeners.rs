use lib::listeners::{
    await_in_request_order, collate_sheets, css_listener_action, js_listener_action, ListenerAction, PageAction, PageLoad,
    PendingResults, ScriptLoad, ScriptLoadAction,
};
use lib::messages::{CSSMessage, JSMessage, ProgressMsg, StylesheetProvenance, UrlRef};

fn url(href: &str) -> UrlRef {
    UrlRef { href: href.to_string(), base: "http://base/".to_string() }
}

#[test]
fn css_listener_spawns_for_new_files_and_stops_on_exit() {
    match css_listener_action(CSSMessage::CSSTaskNewFile(StylesheetProvenance::UrlProvenance(url("a.css")))) {
        ListenerAction::Spawn(StylesheetProvenance::UrlProvenance(u)) => assert_eq!(u.href, "a.css"),
        other => panic!("unexpected action {:?}", other),
    }
    match css_listener_action(CSSMessage::CSSTaskNewFile(StylesheetProvenance::InlineProvenance(
        "http://example.com/".to_string(),
        "b {}".to_string(),
    ))) {
        ListenerAction::Spawn(StylesheetProvenance::InlineProvenance(_, d)) => assert_eq!(d, "b {}"),
        other => panic!("unexpected action {:?}", other),
    }
    assert!(matches!(css_listener_action(CSSMessage::CSSTaskExit), ListenerAction::Finish));
}

#[test]
fn js_listener_spawns_for_new_files_and_stops_on_exit() {
    match js_listener_action(JSMessage::JSTaskNewFile(url("x.js"))) {
        ListenerAction::Spawn(u) => assert_eq!(u.href, "x.js"),
        other => panic!("unexpected action {:?}", other),
    }
    assert!(matches!(js_listener_action(JSMessage::JSTaskExit), ListenerAction::Finish));
}

#[test]
fn pending_results_come_back_in_request_order() {
    let mut p: PendingResults<u32> = PendingResults::new();
    p.push(3);
    p.push(1);
    p.push(2);
    assert_eq!(p.close(), vec![3, 1, 2]);
}

#[test]
fn sheets_are_sent_in_order_then_none() {
    assert_eq!(collate_sheets(vec!["s1", "s2", "s3"]), vec![Some("s1"), Some("s2"), Some("s3"), None]);
    assert_eq!(collate_sheets::<u8>(vec![]), vec![None]);
}

#[test]
fn script_is_every_chunk_in_order() {
    let mut load = ScriptLoad::new();
    assert!(matches!(load.on_progress(ProgressMsg::Payload(b"var a".to_vec())), ScriptLoadAction::Continue));
    assert!(matches!(load.on_progress(ProgressMsg::Payload(vec![])), ScriptLoadAction::Continue));
    assert!(matches!(load.on_progress(ProgressMsg::Payload(b" = 1;".to_vec())), ScriptLoadAction::Continue));
    match load.on_progress(ProgressMsg::Done(Ok(()))) {
        ScriptLoadAction::Deliver(s) => assert_eq!(s, b"var a = 1;".to_vec()),
        other => panic!("unexpected action {:?}", other),
    }
}

#[test]
fn failed_script_load_is_reported_and_keeps_waiting() {
    let mut load = ScriptLoad::new();
    load.on_progress(ProgressMsg::Payload(b"x".to_vec()));
    assert!(matches!(load.on_progress(ProgressMsg::Done(Err(()))), ScriptLoadAction::ReportError));
    load.on_progress(ProgressMsg::Payload(b"y".to_vec()));
    match load.on_progress(ProgressMsg::Done(Ok(()))) {
        ScriptLoadAction::Deliver(s) => assert_eq!(s, b"xy".to_vec()),
        other => panic!("unexpected action {:?}", other),
    }
}

#[test]
fn empty_script_load_delivers_nothing() {
    let mut load = ScriptLoad::new();
    match load.on_progress(ProgressMsg::Done(Ok(()))) {
        ScriptLoadAction::Deliver(s) => assert!(s.is_empty()),
        other => panic!("unexpected action {:?}", other),
    }
}

#[test]
fn page_chunks_go_to_the_parser_then_both_listeners_stop() {
    let mut page = PageLoad::new();
    match page.on_progress(ProgressMsg::Payload(b"<html>".to_vec())) {
        PageAction::ParseChunk(c) => assert_eq!(c, b"<html>".to_vec()),
        other => panic!("unexpected action {:?}", other),
    }
    match page.on_progress(ProgressMsg::Payload(b"</html>".to_vec())) {
        PageAction::ParseChunk(c) => assert_eq!(c, b"</html>".to_vec()),
        other => panic!("unexpected action {:?}", other),
    }
    match page.on_progress(ProgressMsg::Done(Ok(()))) {
        PageAction::Finish(CSSMessage::CSSTaskExit, JSMessage::JSTaskExit) => {}
        other => panic!("unexpected action {:?}", other),
    }
}

#[test]
fn failed_page_load_still_stops_both_listeners() {
    let mut page = PageLoad::new();
    assert!(matches!(
        page.on_progress(ProgressMsg::Done(Err(()))),
        PageAction::Finish(CSSMessage::CSSTaskExit, JSMessage::JSTaskExit)
    ));
}

#[test]
fn a_whole_run_hands_results_back_in_request_order() {
    assert_eq!(await_in_request_order(vec!["b.js", "a.js", "c.js"]), vec!["b.js", "a.js", "c.js"]);
    assert_eq!(await_in_request_order::<u8>(vec![]), Vec::<u8>::new());
}
