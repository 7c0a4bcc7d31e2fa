use quickwit_console::index::{
    find_index, index_ids, DocMapping, FieldMapping, Index, IndexConfig, ListSplitsResponse,
    Split, SplitState,
};

fn index(id: &str) -> Index {
    Index {
        index_config: IndexConfig {
            index_id: id.to_string(),
            index_uri: format!("s3://bucket/{}", id),
            doc_mapping: DocMapping {
                field_mappings: vec![FieldMapping {
                    name: "body".to_string(),
                    field_type: "text".to_string(),
                }],
                timestamp_field: "ts".to_string(),
            },
        },
        create_timestamp: 0,
        sources: vec![],
    }
}

#[test]
fn counts_splits_marked_for_deletion() {
    let r = ListSplitsResponse {
        splits: vec![
            Split { split_state: SplitState::Staged },
            Split { split_state: SplitState::MarkedForDeletion },
            Split { split_state: SplitState::Published },
            Split { split_state: SplitState::MarkedForDeletion },
        ],
        total_count: Some(4),
    };
    assert_eq!(r.marked_for_deletion_count(), 2);
}

#[test]
fn no_splits_none_marked() {
    let r = ListSplitsResponse { splits: vec![], total_count: None };
    assert_eq!(r.marked_for_deletion_count(), 0);
}

#[test]
fn finds_first_index_with_id() {
    let list = vec![index("logs"), index("metrics"), index("logs")];
    assert_eq!(find_index(&list, "metrics"), Some(1));
    assert_eq!(find_index(&list, "logs"), Some(0));
    assert_eq!(find_index(&list, "traces"), None);
}

#[test]
fn identifiers_in_order() {
    let list = vec![index("logs"), index("metrics")];
    assert_eq!(index_ids(&list), vec!["logs".to_string(), "metrics".to_string()]);
}
