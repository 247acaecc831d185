use ruffle_native::desktop::open_files::{
    file_path_url, first_to_open, open_action_for, process_url, OpenAction, OpenFilesState,
};
use url::{ParseError, Url};

#[test]
fn process_url_opens_valid_urls() {
    match process_url("https://example.org/movie.swf") {
        OpenAction::Open(u) => assert_eq!(u.as_str(), "https://example.org/movie.swf"),
        other => panic!("unexpected {:?}", other),
    }
    match process_url("movie.swf") {
        OpenAction::ReportParseError(e) => assert_eq!(e, ParseError::RelativeUrlWithoutBase),
        other => panic!("unexpected {:?}", other),
    }
}

#[test]
fn open_action_for_results() {
    let u = Url::parse("file:///tmp/a.swf").unwrap();
    assert!(matches!(open_action_for(Ok(u.clone())), OpenAction::Open(x) if x == u));
    assert!(matches!(open_action_for(Err(ParseError::EmptyHost)), OpenAction::ReportParseError(ParseError::EmptyHost)));
}

#[test]
fn ready_handler_sends_in_order() {
    let mut state = OpenFilesState { queued_urls: Vec::new(), ready: true };
    let a = Url::parse("file:///a.swf").unwrap();
    let b = Url::parse("file:///b.swf").unwrap();
    let sent = state.route_file_urls(vec![Ok(a.clone()), Err(()), Ok(b.clone())]);
    assert_eq!(sent, vec![a, b]);
    assert!(state.queued_urls.is_empty());
}

#[test]
fn unready_handler_queues_in_order() {
    let old = Url::parse("file:///old.swf").unwrap();
    let mut state = OpenFilesState { queued_urls: vec![old.clone()], ready: false };
    let a = Url::parse("file:///a.swf").unwrap();
    let sent = state.route_file_urls(vec![Err(()), Ok(a.clone())]);
    assert!(sent.is_empty());
    assert_eq!(state.queued_urls, vec![old, a]);
}

#[test]
fn handle_open_files_converts_paths() {
    let mut state = OpenFilesState { queued_urls: Vec::new(), ready: true };
    let sent = state.handle_open_files(vec![
        Some("/tmp/movie one.swf".to_string()),
        None,
        Some("relative.swf".to_string()),
        Some(String::new()),
    ]);
    let urls: Vec<&str> = sent.iter().map(|u| u.as_str()).collect();
    assert_eq!(urls, vec!["file:///tmp/movie%20one.swf"]);

    let mut waiting = OpenFilesState { queued_urls: Vec::new(), ready: false };
    let sent = waiting.handle_open_files(vec![Some("/tmp/x.swf".to_string())]);
    assert!(sent.is_empty());
    assert_eq!(waiting.queued_urls.len(), 1);
    assert_eq!(waiting.queued_urls[0].as_str(), "file:///tmp/x.swf");
}

#[test]
fn only_the_first_is_opened() {
    assert_eq!(first_to_open(vec!["a", "b", "c"]), Some("a"));
    assert_eq!(first_to_open(Vec::<&str>::new()), None);
}

#[test]
fn file_path_urls() {
    assert_eq!(file_path_url("/tmp/a b.swf").unwrap().as_str(), "file:///tmp/a%20b.swf");
    assert!(file_path_url("").is_err());
    assert!(file_path_url("relative.swf").is_err());
}
