//! The query editor's session state and its transitions: index selection,
//! hit limit, time range, per-row collapse flags, search requests tagged with
//! a sequence token, and hydration from the page address.

use vstd::prelude::*;

use crate::api::{history_url_text, search_path_text, QueryBuilder, SearchParams};
use crate::text::{
    contains_text, parse_usize, parsed_usize, same_text, seq_contains, signed_decimal,
    signed_decimal_text,
};
use crate::time_range::{DateRange, EARLIEST_NOW};

verus! {

/// What `str::to_lowercase` makes of a text.
pub uninterp spec fn lower_of(s: Seq<char>) -> Seq<char>;

/// Relies on `str::to_lowercase`: the result depends on the characters alone.
#[verifier::external_body]
fn lowercase(s: &str) -> (r: String)
    ensures
        r@ == lower_of(s@),
{
    s.to_lowercase()
}

/// The decoded query pairs, in order, that `url::Url::parse` followed by
/// `Url::query_pairs` finds in a page address; `None` where it does not parse.
pub uninterp spec fn url_query_pairs(href: Seq<char>) -> Option<Seq<(Seq<char>, Seq<char>)>>;

#[verifier::external_type_specification]
#[verifier::external_body]
pub struct ExUrlParseError(url::ParseError);

/// Relies on `url::Url::parse` and `Url::query_pairs`: the pairs as decoded
/// strings, in the order of the address; the parse error where it fails.
#[verifier::external_body]
fn page_query_pairs(href: &str) -> (r: Result<Vec<(String, String)>, url::ParseError>)
    ensures
        r is Ok <==> url_query_pairs(href@) is Some,
        r matches Ok(pairs) ==> pairs.deep_view() == url_query_pairs(href@)->0,
{
    match url::Url::parse(href) {
        Ok(u) => Ok(u.query_pairs().map(|(k, v)| (k.into_owned(), v.into_owned())).collect()),
        Err(e) => Err(e),
    }
}

pub const MIN_MAX_HITS: usize = 1;

pub const MAX_MAX_HITS: usize = 1000;

pub const INITIAL_QUERY: &'static str = "*";

/// The field that every search of the editor sorts by.
pub const SORT_FIELD: &'static str = "timestamp_nanos";

/// The page address does not parse as a URL.
#[derive(Clone, Copy, Debug, PartialEq, Eq, Structural)]
pub enum PageUrlError {
    InvalidAddress,
}

/// The editor's state as values.
pub ghost struct EditorView {
    pub query: Seq<char>,
    pub selected_index: Option<Seq<char>>,
    pub search_value: Seq<char>,
    pub max_hits: nat,
    pub date_range: Option<DateRange>,
    pub collapse_all: bool,
    pub rows_collapsed: Seq<bool>,
    pub last_token: nat,
}

/// A search that the editor asks for: the endpoint path with its query
/// string, the query string for the page address, and the token that its
/// response must carry back to be shown.
pub struct SearchRequest {
    pub token: u64,
    pub path: String,
    pub history_url: String,
}

/// The session state of the query editor.
pub struct QueryEditorState {
    query: String,
    selected_index: Option<String>,
    search_value: String,
    max_hits: usize,
    date_range: Option<DateRange>,
    collapse_all: bool,
    rows_collapsed: Vec<bool>,
    last_token: u64,
}

impl View for QueryEditorState {
    type V = EditorView;

    closed spec fn view(&self) -> EditorView {
        EditorView {
            query: self.query@,
            selected_index: self.selected_index.deep_view(),
            search_value: self.search_value@,
            max_hits: self.max_hits as nat,
            date_range: self.date_range,
            collapse_all: self.collapse_all,
            rows_collapsed: self.rows_collapsed@,
            last_token: self.last_token as nat,
        }
    }
}

/// The state after the collapse-all box is toggled.
pub open spec fn toggled_all(v: EditorView) -> EditorView {
    EditorView {
        collapse_all: !v.collapse_all,
        rows_collapsed: Seq::new(v.rows_collapsed.len(), |_i: int| !v.collapse_all),
        ..v
    }
}

/// The state after one row is toggled on its own.
pub open spec fn toggled_row(v: EditorView, row: int) -> EditorView {
    EditorView { rows_collapsed: v.rows_collapsed.update(row, !v.rows_collapsed[row]), ..v }
}

/// A global toggle sets every row to the new flag, whatever the rows held;
/// a row toggle changes that row alone, and its value stands until the next
/// global toggle.
pub proof fn lemma_collapse_all_overrides(v: EditorView, row: int)
    requires
        0 <= row < v.rows_collapsed.len(),
    ensures
        forall|k: int|
            0 <= k < v.rows_collapsed.len() ==> #[trigger] toggled_all(v).rows_collapsed[k]
                == toggled_all(v).collapse_all,
        toggled_row(v, row).rows_collapsed[row] != v.rows_collapsed[row],
        forall|k: int|
            0 <= k < v.rows_collapsed.len() && k != row ==> #[trigger] toggled_row(
                v,
                row,
            ).rows_collapsed[k] == v.rows_collapsed[k],
        toggled_row(v, row).collapse_all == v.collapse_all,
        forall|k: int|
            0 <= k < v.rows_collapsed.len() ==> #[trigger] toggled_all(
                toggled_row(v, row),
            ).rows_collapsed[k] == !v.collapse_all,
{
}

/// The selector lists exactly the listed identifiers that contain the typed
/// text case-insensitively, together with the selected index where listed.
pub proof fn lemma_filter_ids_members(ids: Seq<Seq<char>>, search: Seq<char>, selected: Option<Seq<char>>)
    ensures
        forall|x: Seq<char>|
            #[trigger] filter_ids(ids, search, selected).contains(x) <==> (ids.contains(x)
                && index_matches(x, search, selected)),
    decreases ids.len(),
{
    if ids.len() > 0 {
        lemma_filter_ids_members(ids.drop_last(), search, selected);
        assert forall|x: Seq<char>|
            #[trigger] filter_ids(ids, search, selected).contains(x) <==> (ids.contains(x)
                && index_matches(x, search, selected)) by {
            let rest = filter_ids(ids.drop_last(), search, selected);
            assert(ids =~= ids.drop_last().push(ids.last()));
            if ids.contains(x) && x != ids.last() {
                let k = choose|k: int| 0 <= k < ids.len() && ids[k] == x;
                assert(ids.drop_last()[k] == x);
            }
            if index_matches(ids.last(), search, selected) {
                if rest.push(ids.last()).contains(x) && x != ids.last() {
                    let k = choose|k: int| 0 <= k < rest.len() + 1 && rest.push(ids.last())[k] == x;
                    assert(rest[k] == x);
                }
                if rest.contains(x) {
                    let k = choose|k: int| 0 <= k < rest.len() && rest[k] == x;
                    assert(rest.push(ids.last())[k] == x);
                }
                assert(rest.push(ids.last())[rest.len() as int] == ids.last());
            }
            if ids.drop_last().contains(x) {
                let k = choose|k: int| 0 <= k < ids.drop_last().len() && ids.drop_last()[k] == x;
                assert(ids[k] == x);
            }
            assert(ids[ids.len() - 1] == ids.last());
        }
    }
}

/// `id` is one of the identifiers.
pub open spec fn has_id(ids: Seq<Seq<char>>, id: Seq<char>) -> bool {
    exists|k: int| 0 <= k < ids.len() && ids[k] == id
}

/// An index stays in the selector's list when its identifier contains the
/// typed text, both lower-cased, or when it is the selected index.
pub open spec fn index_matches(id: Seq<char>, search: Seq<char>, selected: Option<Seq<char>>) -> bool {
    seq_contains(lower_of(id), lower_of(search)) || selected == Some(id)
}

/// The identifiers that the selector lists, in their order.
pub open spec fn filter_ids(ids: Seq<Seq<char>>, search: Seq<char>, selected: Option<Seq<char>>) -> Seq<
    Seq<char>,
>
    decreases ids.len(),
{
    if ids.len() == 0 {
        seq![]
    } else {
        let rest = filter_ids(ids.drop_last(), search, selected);
        if index_matches(ids.last(), search, selected) {
            rest.push(ids.last())
        } else {
            rest
        }
    }
}

/// The value of the last pair with this key, as a map collected from the
/// pairs keeps it.
pub open spec fn param_value(pairs: Seq<(Seq<char>, Seq<char>)>, key: Seq<char>) -> Option<Seq<char>>
    decreases pairs.len(),
{
    if pairs.len() == 0 {
        None
    } else if pairs.last().0 == key {
        Some(pairs.last().1)
    } else {
        param_value(pairs.drop_last(), key)
    }
}

/// The hit limit that a text sets: a decimal integer from 1 to 1000.
pub open spec fn accepted_max_hits(text: Seq<char>) -> Option<nat> {
    match parsed_usize(text) {
        Some(n) => if MIN_MAX_HITS <= n <= MAX_MAX_HITS {
            Some(n)
        } else {
            None
        },
        None => None,
    }
}

/// The lower bound that a search sends: the resolved range as decimal text,
/// or empty text where no range is set.
pub open spec fn start_text(range: Option<DateRange>, now: int) -> Seq<char> {
    match range {
        Some(r) => signed_decimal(r.start_bound(now)),
        None => seq![],
    }
}

/// The parameters of the search that the editor runs on an index.
pub open spec fn request_params(v: EditorView, index: Seq<char>, now: int) -> SearchParams {
    SearchParams {
        index_id: index,
        query: v.query,
        max_hits: v.max_hits,
        sort_by_field: Some(SORT_FIELD@),
        start_timestamp: Some(start_text(v.date_range, now)),
        end_timestamp: Some(seq![]),
    }
}

/// `req` is the search that state `v` issues at clock reading `now`.
pub open spec fn issued(v: EditorView, now: int, req: SearchRequest) -> bool {
    match v.selected_index {
        Some(index) => {
            &&& req.token == v.last_token + 1
            &&& req.path@ == search_path_text(request_params(v, index, now))
            &&& req.history_url@ == history_url_text(request_params(v, index, now))
        },
        None => false,
    }
}

/// The state after running a search: only the token moves on.
pub open spec fn after_run(v: EditorView) -> EditorView {
    EditorView { last_token: v.last_token + 1, ..v }
}

/// Running from state `v`: with no index selected nothing happens; else one
/// search is issued and the token advances.
pub open spec fn run_outcome(v: EditorView, now: int, after: EditorView, r: Option<SearchRequest>) -> bool {
    match v.selected_index {
        None => r is None && after == v,
        Some(_) => r matches Some(req) && issued(v, now, req) && after == after_run(v),
    }
}

/// The state after reading the page parameters `query`, `max_hits` and
/// `index`. A hit limit outside 1 to 1000, or not a number, is ignored.
pub open spec fn hydrated(v: EditorView, pairs: Seq<(Seq<char>, Seq<char>)>) -> EditorView {
    let query = param_value(pairs, "query"@);
    let hits = param_value(pairs, "max_hits"@);
    let index = param_value(pairs, "index"@);
    EditorView {
        query: match query {
            Some(q) => q,
            None => v.query,
        },
        max_hits: match hits {
            Some(h) => match accepted_max_hits(h) {
                Some(n) => n,
                None => v.max_hits,
            },
            None => v.max_hits,
        },
        search_value: match index {
            Some(i) => i,
            None => v.search_value,
        },
        selected_index: match index {
            Some(i) => Some(i),
            None => v.selected_index,
        },
        ..v
    }
}

/// Lower-cased texts match: `folded_id` contains `folded_search`, or `id` is
/// the selected index.
pub fn index_matches_folded(
    folded_id: &str,
    folded_search: &str,
    id: &str,
    selected: &Option<String>,
) -> (r: bool)
    ensures
        r == (seq_contains(folded_id@, folded_search@) || selected.deep_view() == Some(id@)),
{
    if contains_text(folded_id, folded_search) {
        return true;
    }
    match selected {
        Some(s) => same_text(s.as_str(), id),
        None => false,
    }
}

/// Whether one of the identifiers is `id`.
pub fn contains_id(ids: &Vec<String>, id: &str) -> (r: bool)
    ensures
        r == has_id(ids.deep_view(), id@),
{
    let mut i: usize = 0;
    while i < ids.len()
        invariant
            i <= ids@.len(),
            forall|k: int| 0 <= k < i ==> ids.deep_view()[k] != id@,
        decreases ids@.len() - i,
    {
        if same_text(ids[i].as_str(), id) {
            assert(ids.deep_view()[i as int] == id@);
            return true;
        }
        i += 1;
    }
    false
}

fn find_param(pairs: &Vec<(String, String)>, key: &str) -> (r: Option<String>)
    ensures
        r.deep_view() == param_value(pairs.deep_view(), key@),
{
    let ghost all = pairs.deep_view();
    let mut i: usize = pairs.len();
    assert(all.subrange(0, i as int) =~= all);
    while i > 0
        invariant
            i <= pairs@.len(),
            all == pairs.deep_view(),
            param_value(all, key@) == param_value(all.subrange(0, i as int), key@),
        decreases i,
    {
        i -= 1;
        let ghost prefix = all.subrange(0, i + 1);
        assert(prefix.drop_last() =~= all.subrange(0, i as int));
        assert(prefix.last() == all[i as int]);
        if same_text(pairs[i].0.as_str(), key) {
            return Some(pairs[i].1.clone());
        }
    }
    None
}

impl QueryEditorState {
    /// The hit limit lies in 1 to 1000 and a custom range holds valid instants.
    pub open spec fn wf(&self) -> bool {
        &&& MIN_MAX_HITS <= self@.max_hits <= MAX_MAX_HITS
        &&& (self@.date_range matches Some(r) ==> r.wf())
    }

    /// The state on entry: query `*`, no index, 20 hits, no time range,
    /// rows collapsed, no search issued.
    pub fn new() -> (r: Self)
        ensures
            r.wf(),
            r@ == (EditorView {
                query: INITIAL_QUERY@,
                selected_index: None,
                search_value: seq![],
                max_hits: 20,
                date_range: None,
                collapse_all: true,
                rows_collapsed: seq![],
                last_token: 0,
            }),
    {
        QueryEditorState {
            query: String::from_str(INITIAL_QUERY),
            selected_index: None,
            search_value: String::new(),
            max_hits: 20,
            date_range: None,
            collapse_all: true,
            rows_collapsed: Vec::new(),
            last_token: 0,
        }
    }

    pub fn query(&self) -> (r: &str)
        ensures
            r@ == self@.query,
    {
        self.query.as_str()
    }

    pub fn selected_index(&self) -> (r: Option<String>)
        ensures
            r.deep_view() == self@.selected_index,
    {
        match &self.selected_index {
            Some(s) => Some(s.clone()),
            None => None,
        }
    }

    /// The text shown in the index input.
    pub fn search_value(&self) -> (r: &str)
        ensures
            r@ == self@.search_value,
    {
        self.search_value.as_str()
    }

    pub fn max_hits(&self) -> (r: usize)
        ensures
            r == self@.max_hits,
    {
        self.max_hits
    }

    pub fn date_range(&self) -> (r: Option<DateRange>)
        ensures
            r == self@.date_range,
    {
        self.date_range
    }

    pub fn collapse_all(&self) -> (r: bool)
        ensures
            r == self@.collapse_all,
    {
        self.collapse_all
    }

    /// The number of result rows shown.
    pub fn row_count(&self) -> (r: usize)
        ensures
            r == self@.rows_collapsed.len(),
    {
        self.rows_collapsed.len()
    }

    /// Whether a result row shows its summary rather than the full document.
    pub fn row_collapsed(&self, row: usize) -> (r: bool)
        requires
            row < self@.rows_collapsed.len(),
        ensures
            r == self@.rows_collapsed[row as int],
    {
        self.rows_collapsed[row]
    }

    /// The token of the latest search issued; 0 before the first.
    pub fn last_token(&self) -> (r: u64)
        ensures
            r == self@.last_token,
    {
        self.last_token
    }

    /// The query text is edited.
    pub fn set_query(&mut self, text: &str)
        ensures
            final(self)@ == (EditorView { query: text@, ..old(self)@ }),
    {
        self.query = String::from_str(text);
    }

    /// The hit limit input is edited: a decimal integer from 1 to 1000 is
    /// taken, anything else leaves the limit as it was.
    pub fn set_max_hits_input(&mut self, input: &str) -> (r: bool)
        ensures
            r == accepted_max_hits(input@) is Some,
            accepted_max_hits(input@) matches Some(n) ==> final(self)@ == (EditorView {
                max_hits: n,
                ..old(self)@
            }),
            accepted_max_hits(input@) is None ==> final(self)@ == old(self)@,
    {
        match parse_usize(input) {
            Some(n) => {
                if MIN_MAX_HITS <= n && n <= MAX_MAX_HITS {
                    self.max_hits = n;
                    true
                } else {
                    false
                }
            },
            None => false,
        }
    }

    /// A time range is chosen, or cleared with `None`.
    pub fn set_date_range(&mut self, range: Option<DateRange>)
        requires
            range matches Some(r) ==> r.wf(),
        ensures
            final(self)@ == (EditorView { date_range: range, ..old(self)@ }),
    {
        self.date_range = range;
    }

    /// Text is typed into the index input. An exact identifier selects that
    /// index; empty text clears the selection; other text leaves it.
    pub fn type_index(&mut self, text: &str, index_ids: &Vec<String>)
        ensures
            final(self)@ == (EditorView {
                search_value: text@,
                selected_index: if text@.len() == 0 {
                    None
                } else if has_id(index_ids.deep_view(), text@) {
                    Some(text@)
                } else {
                    old(self)@.selected_index
                },
                ..old(self)@
            }),
    {
        self.search_value = String::from_str(text);
        if text.unicode_len() == 0 {
            self.selected_index = None;
        } else if contains_id(index_ids, text) {
            self.selected_index = Some(String::from_str(text));
        }
    }

    /// An entry of the dropdown is clicked: its identifier fills the input
    /// and is selected where it names a listed index.
    pub fn choose_index(&mut self, index_id: &str, index_ids: &Vec<String>)
        ensures
            final(self)@ == (EditorView {
                search_value: index_id@,
                selected_index: if has_id(index_ids.deep_view(), index_id@) {
                    Some(index_id@)
                } else {
                    None
                },
                ..old(self)@
            }),
    {
        self.search_value = String::from_str(index_id);
        if contains_id(index_ids, index_id) {
            self.selected_index = Some(String::from_str(index_id));
        } else {
            self.selected_index = None;
        }
    }

    /// The clear button empties the input and the selection.
    pub fn clear_index(&mut self)
        ensures
            final(self)@ == (EditorView {
                search_value: seq![],
                selected_index: None,
                ..old(self)@
            }),
    {
        self.search_value = String::new();
        self.selected_index = None;
    }

    /// The index input loses focus. Text that names no listed index snaps
    /// back to the selected index (empty if none); the selection is kept.
    pub fn leave_index_input(&mut self, index_ids: &Vec<String>)
        ensures
            final(self)@ == if has_id(index_ids.deep_view(), old(self)@.search_value) {
                old(self)@
            } else {
                EditorView {
                    search_value: match old(self)@.selected_index {
                        Some(s) => s,
                        None => seq![],
                    },
                    ..old(self)@
                }
            },
    {
        if !contains_id(index_ids, self.search_value.as_str()) {
            self.search_value = match &self.selected_index {
                Some(s) => s.clone(),
                None => String::new(),
            };
        }
    }

    /// The identifiers that the index dropdown lists for the typed text.
    pub fn filtered_indexes(&self, index_ids: &Vec<String>) -> (r: Vec<String>)
        ensures
            r.deep_view() == filter_ids(
                index_ids.deep_view(),
                self@.search_value,
                self@.selected_index,
            ),
    {
        let ghost ids = index_ids.deep_view();
        let ghost search = self@.search_value;
        let ghost selected = self@.selected_index;
        let folded_search = lowercase(self.search_value.as_str());
        let mut r: Vec<String> = Vec::new();
        let mut i: usize = 0;
        while i < index_ids.len()
            invariant
                i <= index_ids@.len(),
                ids == index_ids.deep_view(),
                search == self@.search_value,
                selected == self@.selected_index,
                selected == self.selected_index.deep_view(),
                folded_search@ == lower_of(search),
                r.deep_view() == filter_ids(ids.subrange(0, i as int), search, selected),
            decreases index_ids@.len() - i,
        {
            let ghost prefix = ids.subrange(0, i + 1);
            assert(prefix.drop_last() =~= ids.subrange(0, i as int));
            let id = &index_ids[i];
            let folded_id = lowercase(id.as_str());
            if index_matches_folded(
                folded_id.as_str(),
                folded_search.as_str(),
                id.as_str(),
                &self.selected_index,
            ) {
                let ghost before = r.deep_view();
                r.push(id.clone());
                assert(r.deep_view() =~= before.push(ids[i as int]));
            }
            i += 1;
        }
        assert(ids.subrange(0, i as int) =~= ids);
        r
    }

    /// The collapse-all box is toggled: the flag flips and every row takes
    /// its new value.
    pub fn toggle_collapse_all(&mut self)
        ensures
            final(self)@ == toggled_all(old(self)@),
    {
        let value = !self.collapse_all;
        let n = self.rows_collapsed.len();
        self.collapse_all = value;
        self.rows_collapsed = filled(n, value);
    }

    /// One row is toggled on its own; no other row changes.
    pub fn toggle_row(&mut self, row: usize)
        requires
            row < old(self)@.rows_collapsed.len(),
        ensures
            final(self)@ == toggled_row(old(self)@, row as int),
    {
        let value = !self.rows_collapsed[row];
        self.rows_collapsed.set(row, value);
    }

    fn build_request(&self, index: &str, now: i64) -> (r: (String, String))
        requires
            now >= EARLIEST_NOW,
        ensures
            r.0@ == search_path_text(request_params(self@, index@, now as int)),
            r.1@ == history_url_text(request_params(self@, index@, now as int)),
    {
        let start = match self.date_range {
            Some(range) => signed_decimal_text(range.start_timestamp(now)),
            None => String::new(),
        };
        let b = QueryBuilder::new(index).query(self.query.as_str()).max_hits(
            self.max_hits,
        ).sort_by_field(SORT_FIELD).start_timestamp(start.as_str()).end_timestamp("");
        proof {
            reveal_strlit("");
        }
        assert(start@ == start_text(self@.date_range, now as int));
        assert(b@.end_timestamp == Some(Seq::<char>::empty()));
        assert(b@ == request_params(self@, index@, now as int));
        (b.search_path(), b.history_url())
    }

    /// The run button is pressed at clock reading `now` (Unix seconds). With
    /// no index selected it does nothing; else it issues the search with the
    /// next token.
    pub fn run(&mut self, now: i64) -> (r: Option<SearchRequest>)
        requires
            now >= EARLIEST_NOW,
            old(self)@.last_token < u64::MAX,
        ensures
            run_outcome(old(self)@, now as int, final(self)@, r),
    {
        let built = match &self.selected_index {
            Some(index) => Some(self.build_request(index.as_str(), now)),
            None => None,
        };
        match built {
            Some((path, history_url)) => {
                self.last_token = self.last_token + 1;
                Some(SearchRequest { token: self.last_token, path, history_url })
            },
            None => None,
        }
    }

    /// A response arrives for the search with `token`. Only the latest
    /// issued search is shown: its hits get one row each, collapsed as the
    /// collapse-all flag stands. Any other response is dropped.
    pub fn accept_response(&mut self, token: u64, hit_count: usize) -> (r: bool)
        ensures
            r == (old(self)@.last_token > 0 && token == old(self)@.last_token),
            r ==> final(self)@ == (EditorView {
                rows_collapsed: Seq::new(hit_count as nat, |_i: int| old(self)@.collapse_all),
                ..old(self)@
            }),
            !r ==> final(self)@ == old(self)@,
    {
        if self.last_token > 0 && token == self.last_token {
            self.rows_collapsed = filled(hit_count, self.collapse_all);
            true
        } else {
            false
        }
    }

    /// The page parameters are read on entry; where an index is then
    /// selected, the first search is issued.
    pub fn hydrate_from_params(&mut self, pairs: &Vec<(String, String)>, now: i64) -> (r: Option<
        SearchRequest,
    >)
        requires
            old(self).wf(),
            now >= EARLIEST_NOW,
            old(self)@.last_token < u64::MAX,
        ensures
            final(self).wf(),
            run_outcome(hydrated(old(self)@, pairs.deep_view()), now as int, final(self)@, r),
    {
        proof {
            reveal_strlit("query");
            reveal_strlit("max_hits");
            reveal_strlit("index");
        }
        match find_param(pairs, "query") {
            Some(q) => {
                self.query = q;
            },
            None => {},
        }
        match find_param(pairs, "max_hits") {
            Some(h) => {
                self.set_max_hits_input(h.as_str());
            },
            None => {},
        }
        match find_param(pairs, "index") {
            Some(i) => {
                self.selected_index = Some(i.clone());
                self.search_value = i;
            },
            None => {},
        }
        assert(self@ == hydrated(old(self)@, pairs.deep_view()));
        self.run(now)
    }

    /// Hydration from the page address: its query pairs, then as
    /// `hydrate_from_params`. An address that does not parse changes nothing.
    pub fn hydrate(&mut self, href: &str, now: i64) -> (r: Result<Option<SearchRequest>, PageUrlError>)
        requires
            old(self).wf(),
            now >= EARLIEST_NOW,
            old(self)@.last_token < u64::MAX,
        ensures
            final(self).wf(),
            url_query_pairs(href@) is None ==> r == Err::<Option<SearchRequest>, PageUrlError>(
                PageUrlError::InvalidAddress,
            ) && final(self)@ == old(self)@,
            url_query_pairs(href@) matches Some(pairs) ==> r matches Ok(s) && run_outcome(
                hydrated(old(self)@, pairs),
                now as int,
                final(self)@,
                s,
            ),
    {
        match page_query_pairs(href) {
            Ok(pairs) => Ok(self.hydrate_from_params(&pairs, now)),
            Err(_) => Err(PageUrlError::InvalidAddress),
        }
    }
}

/// `n` copies of `value`.
fn filled(n: usize, value: bool) -> (r: Vec<bool>)
    ensures
        r@ == Seq::new(n as nat, |_i: int| value),
{
    let mut r: Vec<bool> = Vec::new();
    let mut i: usize = 0;
    while i < n
        invariant
            i <= n,
            r@ == Seq::new(i as nat, |_i: int| value),
        decreases n - i,
    {
        r.push(value);
        i += 1;
        assert(r@ =~= Seq::new(i as nat, |_i: int| value));
    }
    r
}

} // verus!
