use quickwit_console::api::{CLUSTER_PATH, INDEXES_PATH, INDEXING_PATH};
use quickwit_console::{QueryBuilder, QuickwitApi};

#[test]
fn request_parameters_in_fixed_order() {
    let b = QueryBuilder::new("logs")
        .query("error AND level:5")
        .max_hits(50)
        .sort_by_field("timestamp_nanos")
        .start_timestamp("1700000000");
    assert_eq!(
        b.query_params(),
        "query=error%20AND%20level%3A5&max_hits=50&sort_by_field=timestamp_nanos&start_timestamp=1700000000"
    );
    assert_eq!(
        b.search_path(),
        "/api/v1/logs/search?query=error%20AND%20level%3A5&max_hits=50&sort_by_field=timestamp_nanos&start_timestamp=1700000000"
    );
    assert_eq!(
        b.history_url(),
        "?index=logs&query=error%20AND%20level%3A5&max_hits=50&sort_by_field=timestamp_nanos&start_timestamp=1700000000"
    );
}

#[test]
fn fresh_builder_defaults() {
    let b = QuickwitApi::query("logs");
    assert_eq!(b.query_params(), "query=&max_hits=20");
}

#[test]
fn time_range_sets_both_bounds() {
    let b = QueryBuilder::new("logs").time_range("10", "20");
    assert_eq!(
        b.query_params(),
        "query=&max_hits=20&start_timestamp=10&end_timestamp=20"
    );
}

#[test]
fn empty_bounds_are_still_sent() {
    let b = QueryBuilder::new("logs").start_timestamp("").end_timestamp("");
    assert_eq!(
        b.query_params(),
        "query=&max_hits=20&start_timestamp=&end_timestamp="
    );
}

#[test]
fn index_and_sort_field_are_encoded() {
    let b = QueryBuilder::new("my index").sort_by_field("a/b").query("é");
    assert_eq!(
        b.search_path(),
        "/api/v1/my%20index/search?query=%C3%A9&max_hits=20&sort_by_field=a%2Fb"
    );
}

#[test]
fn later_calls_replace_earlier_ones() {
    let b = QueryBuilder::new("logs")
        .query("a")
        .query("b")
        .max_hits(5)
        .max_hits(7)
        .end_timestamp("9");
    assert_eq!(b.query_params(), "query=b&max_hits=7&end_timestamp=9");
}

#[test]
fn endpoint_paths() {
    assert_eq!(CLUSTER_PATH, "/api/v1/cluster");
    assert_eq!(INDEXES_PATH, "/api/v1/indexes");
    assert_eq!(INDEXING_PATH, "/api/v1/indexing");
    assert_eq!(QuickwitApi::index_detail_path("logs"), "/api/v1/indexes/logs");
    assert_eq!(
        QuickwitApi::index_describe_path("logs"),
        "/api/v1/indexes/logs/describe"
    );
    assert_eq!(
        QuickwitApi::index_splits_path("logs"),
        "/api/v1/indexes/logs/splits"
    );
    assert_eq!(
        QuickwitApi::url_for("http://localhost:7280", "/api/v1/cluster"),
        "http://localhost:7280/api/v1/cluster"
    );
}

#[test]
fn encoded_query_holds_only_unreserved_and_escapes() {
    let b = QueryBuilder::new("logs").query("a&b=c d~é");
    assert_eq!(b.query_params(), "query=a%26b%3Dc%20d~%C3%A9&max_hits=20");
}
