//! The search engine's REST surface: endpoint paths and the search request
//! builder with its URL parameter serialisation.

use vstd::prelude::*;

use crate::encoding::{percent_encoded, url_encode};
use crate::text::{decimal, push_decimal};

verus! {

/// The parameters of a search request, as the builder has gathered them.
pub ghost struct SearchParams {
    pub index_id: Seq<char>,
    pub query: Seq<char>,
    pub max_hits: nat,
    pub sort_by_field: Option<Seq<char>>,
    pub start_timestamp: Option<Seq<char>>,
    pub end_timestamp: Option<Seq<char>>,
}

pub const DEFAULT_MAX_HITS: usize = 20;

/// `&name=value` where a value is present, nothing otherwise.
pub open spec fn optional_param(name: Seq<char>, value: Option<Seq<char>>) -> Seq<char> {
    match value {
        Some(v) => seq!['&'] + name + seq!['='] + v,
        None => seq![],
    }
}

/// The query string of a search: `query` and `max_hits` always, then
/// `sort_by_field`, `start_timestamp` and `end_timestamp` where set, in this
/// order. The query text and the sort field are percent-encoded; the
/// timestamps are sent as given.
pub open spec fn query_params_text(p: SearchParams) -> Seq<char> {
    "query="@ + percent_encoded(p.query) + "&max_hits="@ + decimal(p.max_hits) + optional_param(
        "sort_by_field"@,
        match p.sort_by_field {
            Some(f) => Some(percent_encoded(f)),
            None => None,
        },
    ) + optional_param("start_timestamp"@, p.start_timestamp) + optional_param(
        "end_timestamp"@,
        p.end_timestamp,
    )
}

/// The path of the search endpoint of the index, with its query string.
pub open spec fn search_path_text(p: SearchParams) -> Seq<char> {
    "/api/v1/"@ + percent_encoded(p.index_id) + "/search?"@ + query_params_text(p)
}

/// The query string that the page address takes after a search, so that the
/// search can be shared and replayed.
pub open spec fn history_url_text(p: SearchParams) -> Seq<char> {
    "?index="@ + percent_encoded(p.index_id) + "&"@ + query_params_text(p)
}

/// Entry point to the search engine's REST surface.
pub struct QuickwitApi;

pub const CLUSTER_PATH: &'static str = "/api/v1/cluster";

pub const INDEXES_PATH: &'static str = "/api/v1/indexes";

pub const INDEXING_PATH: &'static str = "/api/v1/indexing";

impl QuickwitApi {
    /// Starts a search request on an index.
    pub fn query<'a>(index_id: &'a str) -> (r: QueryBuilder<'a>)
        ensures
            r@ == QueryBuilder::initial(index_id@),
    {
        QueryBuilder::new(index_id)
    }

    /// The path of an index's metadata: `/api/v1/indexes/<id>`.
    pub fn index_detail_path(index_id: &str) -> (r: String)
        ensures
            r@ == "/api/v1/indexes/"@ + index_id@,
    {
        let mut s = String::from_str("/api/v1/indexes/");
        s.append(index_id);
        s
    }

    /// The path of an index's statistics: `/api/v1/indexes/<id>/describe`.
    pub fn index_describe_path(index_id: &str) -> (r: String)
        ensures
            r@ == "/api/v1/indexes/"@ + index_id@ + "/describe"@,
    {
        let mut s = QuickwitApi::index_detail_path(index_id);
        s.append("/describe");
        s
    }

    /// The path of an index's splits: `/api/v1/indexes/<id>/splits`.
    pub fn index_splits_path(index_id: &str) -> (r: String)
        ensures
            r@ == "/api/v1/indexes/"@ + index_id@ + "/splits"@,
    {
        let mut s = QuickwitApi::index_detail_path(index_id);
        s.append("/splits");
        s
    }

    /// The address of a path under a backend base URL.
    pub fn url_for(base: &str, path: &str) -> (r: String)
        ensures
            r@ == base@ + path@,
    {
        let mut s = String::from_str(base);
        s.append(path);
        s
    }
}

/// Gathers the parameters of one search request.
pub struct QueryBuilder<'a> {
    index_id: &'a str,
    query_str: String,
    max_hits: usize,
    sort_by_field: Option<String>,
    start_timestamp: Option<String>,
    end_timestamp: Option<String>,
}

impl<'a> View for QueryBuilder<'a> {
    type V = SearchParams;

    closed spec fn view(&self) -> SearchParams {
        SearchParams {
            index_id: self.index_id@,
            query: self.query_str@,
            max_hits: self.max_hits as nat,
            sort_by_field: self.sort_by_field.deep_view(),
            start_timestamp: self.start_timestamp.deep_view(),
            end_timestamp: self.end_timestamp.deep_view(),
        }
    }
}

impl<'a> QueryBuilder<'a> {
    /// A fresh request on an index: empty query, the default hit limit, no
    /// sort field and no time bounds.
    pub open spec fn initial(index_id: Seq<char>) -> SearchParams {
        SearchParams {
            index_id,
            query: seq![],
            max_hits: DEFAULT_MAX_HITS as nat,
            sort_by_field: None,
            start_timestamp: None,
            end_timestamp: None,
        }
    }

    pub fn new(index_id: &'a str) -> (r: Self)
        ensures
            r@ == Self::initial(index_id@),
    {
        QueryBuilder {
            index_id,
            query_str: String::new(),
            max_hits: DEFAULT_MAX_HITS,
            sort_by_field: None,
            start_timestamp: None,
            end_timestamp: None,
        }
    }

    pub fn query(self, query: &str) -> (r: Self)
        ensures
            r@ == (SearchParams { query: query@, ..self@ }),
    {
        QueryBuilder { query_str: String::from_str(query), ..self }
    }

    pub fn max_hits(self, max_hits: usize) -> (r: Self)
        ensures
            r@ == (SearchParams { max_hits: max_hits as nat, ..self@ }),
    {
        QueryBuilder { max_hits, ..self }
    }

    pub fn sort_by_field(self, field: &str) -> (r: Self)
        ensures
            r@ == (SearchParams { sort_by_field: Some(field@), ..self@ }),
    {
        QueryBuilder { sort_by_field: Some(String::from_str(field)), ..self }
    }

    pub fn time_range(self, start: &str, end: &str) -> (r: Self)
        ensures
            r@ == (SearchParams {
                start_timestamp: Some(start@),
                end_timestamp: Some(end@),
                ..self@
            }),
    {
        QueryBuilder {
            start_timestamp: Some(String::from_str(start)),
            end_timestamp: Some(String::from_str(end)),
            ..self
        }
    }

    pub fn start_timestamp(self, start: &str) -> (r: Self)
        ensures
            r@ == (SearchParams { start_timestamp: Some(start@), ..self@ }),
    {
        QueryBuilder { start_timestamp: Some(String::from_str(start)), ..self }
    }

    pub fn end_timestamp(self, end: &str) -> (r: Self)
        ensures
            r@ == (SearchParams { end_timestamp: Some(end@), ..self@ }),
    {
        QueryBuilder { end_timestamp: Some(String::from_str(end)), ..self }
    }

    /// The query string of the request.
    pub fn query_params(&self) -> (r: String)
        ensures
            r@ == query_params_text(self@),
    {
        proof {
            reveal_strlit("query=");
            reveal_strlit("&max_hits=");
            reveal_strlit("&sort_by_field=");
            reveal_strlit("&start_timestamp=");
            reveal_strlit("&end_timestamp=");
            reveal_strlit("sort_by_field");
            reveal_strlit("start_timestamp");
            reveal_strlit("end_timestamp");
        }
        let mut s = String::from_str("query=");
        let q = url_encode(self.query_str.as_str());
        s.append(q.as_str());
        s.append("&max_hits=");
        push_decimal(&mut s, self.max_hits as u64);
        let ghost base = s@;
        match &self.sort_by_field {
            Some(f) => {
                let e = url_encode(f.as_str());
                s.append("&sort_by_field=");
                s.append(e.as_str());
            },
            None => {},
        }
        let ghost with_sort = s@;
        match &self.start_timestamp {
            Some(v) => {
                s.append("&start_timestamp=");
                s.append(v.as_str());
            },
            None => {},
        }
        let ghost with_start = s@;
        match &self.end_timestamp {
            Some(v) => {
                s.append("&end_timestamp=");
                s.append(v.as_str());
            },
            None => {},
        }
        let ghost p = self@;
        assert(with_sort =~= base + optional_param(
            "sort_by_field"@,
            match p.sort_by_field {
                Some(f) => Some(percent_encoded(f)),
                None => None,
            },
        ));
        assert(with_start =~= with_sort + optional_param("start_timestamp"@, p.start_timestamp));
        assert(s@ =~= with_start + optional_param("end_timestamp"@, p.end_timestamp));
        s
    }

    /// The path of the search endpoint with the request's query string.
    pub fn search_path(&self) -> (r: String)
        ensures
            r@ == search_path_text(self@),
    {
        let mut s = String::from_str("/api/v1/");
        let e = url_encode(self.index_id);
        s.append(e.as_str());
        s.append("/search?");
        let params = self.query_params();
        s.append(params.as_str());
        s
    }

    /// The query string that the page address takes after this search.
    pub fn history_url(&self) -> (r: String)
        ensures
            r@ == history_url_text(self@),
    {
        let mut s = String::from_str("?index=");
        let e = url_encode(self.index_id);
        s.append(e.as_str());
        s.append("&");
        let params = self.query_params();
        s.append(params.as_str());
        s
    }
}

} // verus!
