use super::filter::{chain_text, Filter};
use super::filter_operator::FilterOperator;
use super::logical_operator::LogicalOperator;
use crate::text::{
    bool_text, bool_to_string, decimal, decimal_nat, int_to_string, lemma_decimal_nat_denotes,
    Text,
};
use vstd::prelude::*;
use vstd::string::*;

verus! {

/// A search in the making: paging parameters and a chain of filters.
///
/// Filters are kept in the order in which they were added, and that is the
/// order in which they are written to the query string: the chain is flat,
/// without grouping or precedence.
#[derive(Debug, Clone)]
pub struct SearchQuery<T1 = String, T2 = String> {
    filters: Vec<Filter<T1, T2>>,
    limit: Option<i32>,
    offset: Option<i32>,
    scroll: Option<bool>,
    stats: Option<bool>,
}

/// What a [`SearchQuery`] holds.
pub struct SearchQueryView<T1, T2> {
    pub filters: Seq<Filter<T1, T2>>,
    pub limit: Option<i32>,
    pub offset: Option<i32>,
    pub scroll: Option<bool>,
    pub stats: Option<bool>,
}

impl<T1, T2> View for SearchQuery<T1, T2> {
    type V = SearchQueryView<T1, T2>;

    closed spec fn view(&self) -> SearchQueryView<T1, T2> {
        SearchQueryView {
            filters: self.filters@,
            limit: self.limit,
            offset: self.offset,
            scroll: self.scroll,
            stats: self.stats,
        }
    }
}

/// The `limit` parameter, which comes first and has no `&` before it.
pub open spec fn limit_text(limit: Option<i32>) -> Seq<char> {
    match limit {
        Some(l) => "limit="@ + decimal(l as int),
        None => Seq::empty(),
    }
}

/// The `offset` parameter.
pub open spec fn offset_text(offset: Option<i32>) -> Seq<char> {
    match offset {
        Some(o) => "&offset="@ + decimal(o as int),
        None => Seq::empty(),
    }
}

/// The `scroll` parameter.
pub open spec fn scroll_text(scroll: Option<bool>) -> Seq<char> {
    match scroll {
        Some(s) => "&scroll="@ + bool_text(s),
        None => Seq::empty(),
    }
}

/// The `stats` parameter.
pub open spec fn stats_text(stats: Option<bool>) -> Seq<char> {
    match stats {
        Some(s) => "&stats="@ + bool_text(s),
        None => Seq::empty(),
    }
}

impl<T1, T2> SearchQueryView<T1, T2> {
    /// A query with paging parameters only.
    pub open spec fn paged(limit: i32, offset: i32) -> Self {
        SearchQueryView {
            filters: Seq::empty(),
            limit: Some(limit),
            offset: Some(offset),
            scroll: None,
            stats: None,
        }
    }

    /// A query with nothing set.
    pub open spec fn empty() -> Self {
        SearchQueryView {
            filters: Seq::empty(),
            limit: None,
            offset: None,
            scroll: None,
            stats: None,
        }
    }

    /// The query with scrolling switched on or off.
    pub open spec fn scroll(self, scroll: bool) -> Self {
        SearchQueryView { scroll: Some(scroll), ..self }
    }

    /// The query with statistics switched on or off.
    pub open spec fn stats(self, stats: bool) -> Self {
        SearchQueryView { stats: Some(stats), ..self }
    }

    /// The query with one more filter at the end of its chain.
    pub open spec fn with_filter(self, filter: Filter<T1, T2>) -> Self {
        SearchQueryView { filters: self.filters.push(filter), ..self }
    }

    /// The query with `operator` added to its chain by AND.
    pub open spec fn and(self, operator: FilterOperator<T1, T2>) -> Self {
        self.with_filter(
            Filter { logical_operator: LogicalOperator::And, filter_operator: operator },
        )
    }

    /// The query with `operator` added to its chain by OR.
    pub open spec fn or(self, operator: FilterOperator<T1, T2>) -> Self {
        self.with_filter(
            Filter { logical_operator: LogicalOperator::Or, filter_operator: operator },
        )
    }

    /// The question mark and the paging parameters that are set, in the
    /// fixed order limit, offset, scroll, stats.
    pub open spec fn paging_text(self) -> Seq<char> {
        "?"@ + limit_text(self.limit) + offset_text(self.offset) + scroll_text(self.scroll)
            + stats_text(self.stats)
    }
}

impl<T1: Text, T2: Text> SearchQueryView<T1, T2> {
    /// The query string: the paging parameters and, where there is at least
    /// one filter, `&q=` and the chain. The `&` stands before `q=` also where
    /// no paging parameter precedes it.
    pub open spec fn query_string(self) -> Seq<char> {
        if self.filters.len() == 0 {
            self.paging_text()
        } else {
            self.paging_text() + "&q="@ + chain_text(self.filters)
        }
    }
}

impl<T1, T2> SearchQuery<T1, T2> {
    /// A query that asks for `limit` results starting at `offset`, with no
    /// filters yet.
    pub fn paged(limit: i32, offset: i32) -> (query: Self)
        ensures
            query@ == SearchQueryView::<T1, T2>::paged(limit, offset),
    {
        SearchQuery {
            filters: Vec::new(),
            limit: Some(limit),
            offset: Some(offset),
            scroll: None,
            stats: None,
        }
    }

    /// Asks for scrolling through a long result, or declines it.
    pub fn scroll(self, scroll: bool) -> (query: Self)
        ensures
            query@ == self@.scroll(scroll),
    {
        let mut query = self;
        query.scroll = Some(scroll);
        query
    }

    /// Asks for statistics about the search, or declines them.
    pub fn stats(self, stats: bool) -> (query: Self)
        ensures
            query@ == self@.stats(stats),
    {
        let mut query = self;
        query.stats = Some(stats);
        query
    }

    /// Adds a filter that must hold together with what came before it.
    pub fn and(self, operator: FilterOperator<T1, T2>) -> (query: Self)
        ensures
            query@ == self@.and(operator),
    {
        let mut query = self;
        query.filters.push(
            Filter { logical_operator: LogicalOperator::And, filter_operator: operator },
        );
        query
    }

    /// Adds a filter as an alternative to what came before it.
    pub fn or(self, operator: FilterOperator<T1, T2>) -> (query: Self)
        ensures
            query@ == self@.or(operator),
    {
        let mut query = self;
        query.filters.push(
            Filter { logical_operator: LogicalOperator::Or, filter_operator: operator },
        );
        query
    }
}

impl<T1, T2> Default for SearchQuery<T1, T2> {
    /// A query with no paging parameters and no filters.
    fn default() -> (query: Self)
        ensures
            query@ == SearchQueryView::<T1, T2>::empty(),
    {
        SearchQuery { filters: Vec::new(), limit: None, offset: None, scroll: None, stats: None }
    }
}

impl<T1: Text, T2: Text> SearchQuery<T1, T2> {
    /// Writes the query string, leaving the query in place.
    pub fn render(&self) -> (s: String)
        ensures
            s@ == self@.query_string(),
    {
        let mut s = String::from_str("?");
        if let Some(l) = self.limit {
            s.append("limit=");
            s.append(int_to_string(l as i64).as_str());
        }
        if let Some(o) = self.offset {
            s.append("&offset=");
            s.append(int_to_string(o as i64).as_str());
        }
        if let Some(b) = self.scroll {
            s.append("&scroll=");
            s.append(bool_to_string(b).as_str());
        }
        if let Some(b) = self.stats {
            s.append("&stats=");
            s.append(bool_to_string(b).as_str());
        }
        assert(s@ =~= self@.paging_text());
        if self.filters.len() == 0 {
            return s;
        }
        s.append("&q=");
        let ghost head = s@;
        let mut i: usize = 0;
        assert(self.filters@.take(0) =~= Seq::empty());
        while i < self.filters.len()
            invariant
                i <= self.filters.len(),
                s@ == head + chain_text(self.filters@.take(i as int)),
            decreases self.filters.len() - i,
        {
            let piece = self.filters[i].render();
            s.append(piece.as_str());
            proof {
                let upto = self.filters@.take(i as int + 1);
                assert(upto.drop_last() =~= self.filters@.take(i as int));
                assert(upto.last() == self.filters@[i as int]);
            }
            i += 1;
        }
        assert(self.filters@.take(i as int) =~= self.filters@);
        s
    }

    /// Writes the query string.
    pub fn parse(self) -> (s: String)
        ensures
            s@ == self@.query_string(),
    {
        self.render()
    }
}

/// Filters are written in the order in which they were added: a filter
/// added to a chain is written after everything the chain already held, and
/// what the chain already held is written as before.
pub proof fn lemma_chain_text_push<T1: Text, T2: Text>(
    filters: Seq<Filter<T1, T2>>,
    filter: Filter<T1, T2>,
)
    ensures
        chain_text(filters.push(filter)) == chain_text(filters) + filter.serialized(),
{
    assert(filters.push(filter).drop_last() =~= filters);
}

/// A chain made of two parts is written as the first part followed by the
/// second.
pub proof fn lemma_chain_text_concat<T1: Text, T2: Text>(
    first: Seq<Filter<T1, T2>>,
    second: Seq<Filter<T1, T2>>,
)
    ensures
        chain_text(first + second) == chain_text(first) + chain_text(second),
    decreases second.len(),
{
    if second.len() > 0 {
        lemma_chain_text_concat(first, second.drop_last());
        assert((first + second).drop_last() =~= first + second.drop_last());
    }
}

/// A query with nothing set is written as a lone question mark.
pub proof fn lemma_empty_query_string<T1: Text, T2: Text>()
    ensures
        SearchQueryView::<T1, T2>::empty().query_string() == "?"@,
{
}

/// A paged query without filters is written as its limit and its offset,
/// and nothing else.
pub proof fn lemma_paged_query_string<T1: Text, T2: Text>(limit: i32, offset: i32)
    ensures
        SearchQueryView::<T1, T2>::paged(limit, offset).query_string() == "?limit="@ + decimal(
            limit as int,
        ) + "&offset="@ + decimal(offset as int),
{
    assert(SearchQueryView::<T1, T2>::paged(limit, offset).query_string() =~= "?limit="@
        + decimal(limit as int) + "&offset="@ + decimal(offset as int)) by {
        reveal_strlit("?");
        reveal_strlit("limit=");
        reveal_strlit("?limit=");
    }
}

/// Adding a filter leaves what was written before it untouched and puts the
/// new entry at the end; the first filter of a query brings `&q=` with it.
pub proof fn lemma_with_filter_query_string<T1: Text, T2: Text>(
    query: SearchQueryView<T1, T2>,
    filter: Filter<T1, T2>,
)
    ensures
        query.filters.len() == 0 ==> query.with_filter(filter).query_string()
            == query.query_string() + "&q="@ + filter.serialized(),
        query.filters.len() > 0 ==> query.with_filter(filter).query_string()
            == query.query_string() + filter.serialized(),
{
    lemma_chain_text_push(query.filters, filter);
}

/// `and(a)` followed by `or(b)` writes `a` behind an AND connector and then
/// `b` behind an OR connector, after everything the query held before.
pub proof fn lemma_and_then_or<T1: Text, T2: Text>(
    query: SearchQueryView<T1, T2>,
    a: FilterOperator<T1, T2>,
    b: FilterOperator<T1, T2>,
)
    ensures
        query.and(a).or(b).query_string() == query.paging_text() + "&q="@ + chain_text(
            query.filters,
        ) + "%20AND%20"@ + a.serialized() + "%20OR%20"@ + b.serialized(),
{
    let first = Filter { logical_operator: LogicalOperator::And, filter_operator: a };
    let second = Filter { logical_operator: LogicalOperator::Or, filter_operator: b };
    lemma_chain_text_push(query.filters, first);
    lemma_chain_text_push(query.filters.push(first), second);
}

/// Two texts that both lack a character lack it when joined.
proof fn lemma_concat_lacks(first: Seq<char>, second: Seq<char>, c: char)
    requires
        !first.contains(c),
        !second.contains(c),
    ensures
        !(first + second).contains(c),
{
}

/// A number in decimal notation holds no letter `q`.
proof fn lemma_decimal_lacks_q(n: int)
    ensures
        !decimal(n).contains('q'),
{
    let magnitude = if n < 0 {
        (-n) as nat
    } else {
        n as nat
    };
    let digits = decimal_nat(magnitude);
    lemma_decimal_nat_denotes(magnitude);
    if n < 0 {
        lemma_concat_lacks(seq!['-'], digits, 'q');
    }
}

/// Without filters a query string has no `q=` segment: it holds no letter
/// `q` at all. With filters, `&q=` stands between the paging parameters and
/// the chain.
pub proof fn lemma_q_segment_iff_filters<T1: Text, T2: Text>(query: SearchQueryView<T1, T2>)
    ensures
        query.filters.len() == 0 ==> !query.query_string().contains('q'),
        query.filters.len() > 0 ==> query.query_string() == query.paging_text() + "&q="@
            + chain_text(query.filters),
{
    reveal_strlit("?");
    reveal_strlit("limit=");
    reveal_strlit("&offset=");
    reveal_strlit("&scroll=");
    reveal_strlit("&stats=");
    reveal_strlit("true");
    reveal_strlit("false");
    let limit = limit_text(query.limit);
    let offset = offset_text(query.offset);
    let scroll = scroll_text(query.scroll);
    let stats = stats_text(query.stats);
    assert(!limit.contains('q')) by {
        if let Some(l) = query.limit {
            lemma_decimal_lacks_q(l as int);
            lemma_concat_lacks("limit="@, decimal(l as int), 'q');
        }
    }
    assert(!offset.contains('q')) by {
        if let Some(o) = query.offset {
            lemma_decimal_lacks_q(o as int);
            lemma_concat_lacks("&offset="@, decimal(o as int), 'q');
        }
    }
    assert(!scroll.contains('q')) by {
        if let Some(b) = query.scroll {
            lemma_concat_lacks("&scroll="@, bool_text(b), 'q');
        }
    }
    assert(!stats.contains('q')) by {
        if let Some(b) = query.stats {
            lemma_concat_lacks("&stats="@, bool_text(b), 'q');
        }
    }
    lemma_concat_lacks("?"@, limit, 'q');
    lemma_concat_lacks("?"@ + limit, offset, 'q');
    lemma_concat_lacks("?"@ + limit + offset, scroll, 'q');
    lemma_concat_lacks("?"@ + limit + offset + scroll, stats, 'q');
}

/// Every query string begins with a question mark.
pub proof fn lemma_query_string_begins<T1: Text, T2: Text>(query: SearchQueryView<T1, T2>)
    ensures
        query.query_string().len() > 0,
        query.query_string()[0] == '?',
{
    reveal_strlit("?");
}

/// Writing a query depends on the query's value and on nothing else: two
/// strings written from the same query are equal.
pub proof fn lemma_parse_idempotent<T1: Text, T2: Text>(
    query: SearchQuery<T1, T2>,
    first: String,
    second: String,
)
    requires
        first@ == query@.query_string(),
        second@ == query@.query_string(),
    ensures
        first@ == second@,
{
}

} // verus!
