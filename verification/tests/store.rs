use jarvis::store::SharedState;

#[test]
fn a_fresh_store_is_empty_and_idle() {
    let s = SharedState::new();
    assert_eq!(s.read_answer(), "");
    assert!(!s.loading);
}

#[test]
fn begin_request_raises_the_flag_and_keeps_the_answer() {
    let mut s = SharedState::new();
    s.complete("earlier".to_string());
    s.begin_request();
    assert!(s.loading);
    assert_eq!(s.read_answer(), "earlier");
}

#[test]
fn complete_overwrites_and_lowers_the_flag() {
    let mut s = SharedState::new();
    s.begin_request();
    s.complete("result".to_string());
    assert!(!s.loading);
    assert_eq!(s.read_answer(), "result");
}

#[test]
fn the_later_of_two_completions_wins() {
    let mut s = SharedState::new();
    s.begin_request();
    s.begin_request();
    s.complete("slow task, submitted first".to_string());
    s.complete("fast task, finished last".to_string());
    assert_eq!(s.read_answer(), "fast task, finished last");
}

#[test]
fn read_answer_returns_a_copy() {
    let mut s = SharedState::new();
    s.complete("kept".to_string());
    let copy = s.read_answer();
    drop(copy);
    assert_eq!(s.read_answer(), "kept");
}
