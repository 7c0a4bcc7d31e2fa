//! What the backend reports about indexes and their splits.

use vstd::prelude::*;

use crate::text::same_text;

verus! {

/// One index, as the index list reports it.
#[derive(Clone, Debug, PartialEq)]
pub struct Index {
    pub index_config: IndexConfig,
    pub create_timestamp: i64,
    pub sources: Vec<Source>,
}

#[derive(Clone, Debug, PartialEq)]
pub struct IndexConfig {
    pub index_id: String,
    pub index_uri: String,
    pub doc_mapping: DocMapping,
}

#[derive(Clone, Debug, PartialEq)]
pub struct DocMapping {
    pub field_mappings: Vec<FieldMapping>,
    pub timestamp_field: String,
}

/// A field of an index's schema and its type name.
#[derive(Clone, Debug, PartialEq)]
pub struct FieldMapping {
    pub name: String,
    pub field_type: String,
}

/// An ingestion source of an index.
#[derive(Clone, Debug, PartialEq)]
pub struct Source {
    pub version: String,
    pub source_id: String,
    pub num_pipelines: u32,
    pub enabled: bool,
    pub source_type: String,
    pub input_format: String,
}

/// Published document and split statistics of one index.
#[derive(Clone, Copy, Debug, PartialEq, Eq, Structural)]
pub struct IndexDescription {
    pub num_published_docs: u64,
    pub size_published_docs_uncompressed: u64,
    pub num_published_splits: u32,
    pub size_published_splits: u64,
}

/// Where a split stands in its lifecycle.
#[derive(Clone, Copy, Debug, PartialEq, Eq, Structural)]
pub enum SplitState {
    Staged,
    Published,
    MarkedForDeletion,
}

#[derive(Clone, Copy, Debug, PartialEq, Eq, Structural)]
pub struct Split {
    pub split_state: SplitState,
}

/// The splits of one index.
#[derive(Clone, Debug, PartialEq)]
pub struct ListSplitsResponse {
    pub splits: Vec<Split>,
    pub total_count: Option<u64>,
}

/// How many of the splits are marked for deletion.
pub open spec fn count_marked(splits: Seq<Split>) -> nat
    decreases splits.len(),
{
    if splits.len() == 0 {
        0
    } else {
        count_marked(splits.drop_last()) + if splits.last().split_state
            == SplitState::MarkedForDeletion {
            1nat
        } else {
            0nat
        }
    }
}

impl ListSplitsResponse {
    /// The number of splits marked for deletion.
    pub fn marked_for_deletion_count(&self) -> (r: usize)
        ensures
            r == count_marked(self.splits@),
    {
        let mut n: usize = 0;
        let mut i: usize = 0;
        while i < self.splits.len()
            invariant
                i <= self.splits@.len(),
                n == count_marked(self.splits@.subrange(0, i as int)),
                n <= i,
            decreases self.splits@.len() - i,
        {
            assert(self.splits@.subrange(0, i + 1).drop_last() =~= self.splits@.subrange(
                0,
                i as int,
            ));
            if self.splits[i].split_state == SplitState::MarkedForDeletion {
                n += 1;
            }
            i += 1;
        }
        assert(self.splits@.subrange(0, i as int) =~= self.splits@);
        n
    }
}

/// The identifiers of the indexes, in list order.
pub open spec fn ids_of(indexes: Seq<Index>) -> Seq<Seq<char>> {
    indexes.map_values(|x: Index| x.index_config.index_id@)
}

/// The identifiers of a list of indexes, in the same order.
pub fn index_ids(indexes: &Vec<Index>) -> (r: Vec<String>)
    ensures
        r.deep_view() == ids_of(indexes@),
{
    let mut r: Vec<String> = Vec::new();
    let mut i: usize = 0;
    while i < indexes.len()
        invariant
            i <= indexes@.len(),
            r@.len() == i,
            forall|k: int| 0 <= k < i ==> #[trigger] r@[k]@ == indexes@[k].index_config.index_id@,
        decreases indexes@.len() - i,
    {
        r.push(indexes[i].index_config.index_id.clone());
        i += 1;
    }
    assert(r.deep_view() =~= ids_of(indexes@));
    r
}

/// The position of the first index with this identifier, if any.
pub fn find_index(indexes: &Vec<Index>, index_id: &str) -> (r: Option<usize>)
    ensures
        r matches Some(i) ==> i < indexes@.len() && indexes@[i as int].index_config.index_id@
            == index_id@ && forall|j: int|
            0 <= j < i ==> indexes@[j].index_config.index_id@ != index_id@,
        r is None ==> forall|j: int|
            0 <= j < indexes@.len() ==> indexes@[j].index_config.index_id@ != index_id@,
{
    let mut i: usize = 0;
    while i < indexes.len()
        invariant
            i <= indexes@.len(),
            forall|j: int| 0 <= j < i ==> indexes@[j].index_config.index_id@ != index_id@,
        decreases indexes@.len() - i,
    {
        if same_text(indexes[i].index_config.index_id.as_str(), index_id) {
            return Some(i);
        }
        i += 1;
    }
    None
}

} // verus!
