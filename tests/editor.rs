use quickwit_console::editor::PageUrlError;
use quickwit_console::{DateRange, QueryEditorState};

const NOW: i64 = 1_700_000_000;

fn ids(list: &[&str]) -> Vec<String> {
    list.iter().map(|s| s.to_string()).collect()
}

#[test]
fn initial_state() {
    let s = QueryEditorState::new();
    assert_eq!(s.query(), "*");
    assert_eq!(s.selected_index(), None);
    assert_eq!(s.search_value(), "");
    assert_eq!(s.max_hits(), 20);
    assert_eq!(s.date_range(), None);
    assert!(s.collapse_all());
    assert_eq!(s.row_count(), 0);
    assert_eq!(s.last_token(), 0);
}

#[test]
fn max_hits_rejects_out_of_range_and_text() {
    let mut s = QueryEditorState::new();
    assert!(s.set_max_hits_input("50"));
    for bad in ["0", "1001", "abc", "", "-1", "+", "99999999999999999999999"] {
        assert!(!s.set_max_hits_input(bad));
        assert_eq!(s.max_hits(), 50);
    }
}

#[test]
fn max_hits_bounds_are_inclusive() {
    let mut s = QueryEditorState::new();
    assert!(s.set_max_hits_input("1"));
    assert_eq!(s.max_hits(), 1);
    assert!(s.set_max_hits_input("1000"));
    assert_eq!(s.max_hits(), 1000);
    assert!(s.set_max_hits_input("+7"));
    assert_eq!(s.max_hits(), 7);
}

#[test]
fn run_is_disabled_without_index() {
    let mut s = QueryEditorState::new();
    assert!(s.run(NOW).is_none());
    assert_eq!(s.last_token(), 0);
}

#[test]
fn run_builds_the_search_of_the_state() {
    let mut s = QueryEditorState::new();
    let list = ids(&["logs"]);
    s.type_index("logs", &list);
    s.set_query("level:error");
    s.set_date_range(Some(DateRange::Last15Min));
    let req = s.run(NOW).unwrap();
    assert_eq!(req.token, 1);
    assert_eq!(
        req.path,
        "/api/v1/logs/search?query=level%3Aerror&max_hits=20&sort_by_field=timestamp_nanos&start_timestamp=1699999100&end_timestamp="
    );
    assert_eq!(
        req.history_url,
        "?index=logs&query=level%3Aerror&max_hits=20&sort_by_field=timestamp_nanos&start_timestamp=1699999100&end_timestamp="
    );
}

#[test]
fn only_the_latest_response_is_shown() {
    let mut s = QueryEditorState::new();
    s.type_index("logs", &ids(&["logs"]));
    let first = s.run(NOW).unwrap();
    let second = s.run(NOW).unwrap();
    assert_eq!(second.token, first.token + 1);
    assert!(s.accept_response(second.token, 2));
    assert!(!s.accept_response(first.token, 5));
    assert_eq!(s.row_count(), 2);
}

#[test]
fn collapse_all_then_row_override() {
    let mut s = QueryEditorState::new();
    s.type_index("logs", &ids(&["logs"]));
    let req = s.run(NOW).unwrap();
    assert!(s.accept_response(req.token, 3));
    assert!(s.collapse_all());
    assert!(s.row_collapsed(1));
    s.toggle_row(1);
    assert!(!s.row_collapsed(1));
    assert!(s.row_collapsed(0));
    s.toggle_collapse_all();
    assert!(!s.collapse_all());
    assert!(!s.row_collapsed(0) && !s.row_collapsed(1) && !s.row_collapsed(2));
    s.toggle_collapse_all();
    assert!(s.collapse_all());
    assert!(s.row_collapsed(0) && s.row_collapsed(1) && s.row_collapsed(2));
    s.toggle_row(1);
    assert!(!s.row_collapsed(1));
}

#[test]
fn hydrates_from_page_address() {
    let mut s = QueryEditorState::new();
    let req = s
        .hydrate("http://localhost:8080/search?query=foo&max_hits=10&index=logs", NOW)
        .unwrap()
        .unwrap();
    assert_eq!(s.query(), "foo");
    assert_eq!(s.max_hits(), 10);
    assert_eq!(s.selected_index(), Some("logs".to_string()));
    assert_eq!(s.search_value(), "logs");
    assert_eq!(s.last_token(), 1);
    assert_eq!(req.token, 1);
    assert_eq!(
        req.path,
        "/api/v1/logs/search?query=foo&max_hits=10&sort_by_field=timestamp_nanos&start_timestamp=&end_timestamp="
    );
}

#[test]
fn hydration_without_index_issues_no_search() {
    let mut s = QueryEditorState::new();
    let r = s.hydrate("http://localhost/search?query=a+b&max_hits=5000", NOW).unwrap();
    assert!(r.is_none());
    assert_eq!(s.query(), "a b");
    assert_eq!(s.max_hits(), 20);
    assert_eq!(s.last_token(), 0);
}

#[test]
fn hydration_last_duplicate_wins() {
    let mut s = QueryEditorState::new();
    let pairs = vec![
        ("query".to_string(), "x".to_string()),
        ("query".to_string(), "y".to_string()),
    ];
    assert!(s.hydrate_from_params(&pairs, NOW).is_none());
    assert_eq!(s.query(), "y");
}

#[test]
fn invalid_page_address_changes_nothing() {
    let mut s = QueryEditorState::new();
    assert_eq!(
        s.hydrate("not a url", NOW).err(),
        Some(PageUrlError::InvalidAddress)
    );
    assert_eq!(s.query(), "*");
}

#[test]
fn filter_is_case_insensitive_substring() {
    let s = QueryEditorState::new();
    let list = ids(&["logs", "Syslog", "metrics", "app-LOGS"]);
    let mut t = QueryEditorState::new();
    t.type_index("log", &list);
    assert_eq!(t.filtered_indexes(&list), ids(&["logs", "Syslog", "app-LOGS"]));
    assert_eq!(s.filtered_indexes(&list), list);
}

#[test]
fn filter_keeps_selected_index() {
    let list = ids(&["logs", "metrics"]);
    let mut s = QueryEditorState::new();
    s.choose_index("metrics", &list);
    s.type_index("LOG", &list);
    assert_eq!(s.selected_index(), Some("metrics".to_string()));
    assert_eq!(s.filtered_indexes(&list), ids(&["logs", "metrics"]));
}

#[test]
fn typing_exact_id_selects_and_empty_clears() {
    let list = ids(&["logs", "metrics"]);
    let mut s = QueryEditorState::new();
    s.type_index("met", &list);
    assert_eq!(s.selected_index(), None);
    s.type_index("metrics", &list);
    assert_eq!(s.selected_index(), Some("metrics".to_string()));
    s.type_index("me", &list);
    assert_eq!(s.selected_index(), Some("metrics".to_string()));
    s.type_index("", &list);
    assert_eq!(s.selected_index(), None);
}

#[test]
fn leaving_input_snaps_back_to_selection() {
    let list = ids(&["logs", "metrics"]);
    let mut s = QueryEditorState::new();
    s.type_index("logs", &list);
    s.type_index("lo", &list);
    s.leave_index_input(&list);
    assert_eq!(s.search_value(), "logs");
    assert_eq!(s.selected_index(), Some("logs".to_string()));
    s.clear_index();
    s.type_index("zzz", &list);
    s.leave_index_input(&list);
    assert_eq!(s.search_value(), "");
}

#[test]
fn choosing_unknown_id_clears_selection() {
    let list = ids(&["logs"]);
    let mut s = QueryEditorState::new();
    s.choose_index("logs", &list);
    s.choose_index("gone", &list);
    assert_eq!(s.selected_index(), None);
    assert_eq!(s.search_value(), "gone");
}
