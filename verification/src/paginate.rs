//! Pagination of a read query: ordering, a window of `limit` rows starting at
//! `offset`, and the count of all rows that match.

use vstd::prelude::*;
use vstd::string::*;

verus! {

/// The limit of a freshly paginated query.
pub const DEFAULT_LIMIT: i64 = 10;

/// The direction in which the rows are sorted.
#[derive(Debug, Clone, Copy, PartialEq, Eq, Structural)]
pub enum Direction {
    ASC,
    DESC,
}

impl Direction {
    /// The keyword of this direction in an `ORDER BY` clause.
    pub open spec fn spec_keyword(self) -> Seq<char> {
        match self {
            Direction::ASC => "ASC"@,
            Direction::DESC => "DESC"@,
        }
    }

    /// The comparison operator by which a cursor moves in this direction.
    pub open spec fn spec_comparison(self) -> Seq<char> {
        match self {
            Direction::ASC => ">"@,
            Direction::DESC => "<"@,
        }
    }

    /// Whether a row with sort key `a` may stand before one with sort key
    /// `b`: ascending, no smaller key follows a larger one; descending, no
    /// larger key follows a smaller one. Rows with equal keys may stand
    /// either way.
    pub open spec fn in_order(self, a: int, b: int) -> bool {
        match self {
            Direction::ASC => a <= b,
            Direction::DESC => a >= b,
        }
    }

    /// The keyword of this direction in an `ORDER BY` clause: `ASC` or `DESC`.
    pub fn keyword(&self) -> (s: &'static str)
        ensures
            s@ == self.spec_keyword(),
    {
        match self {
            Direction::ASC => "ASC",
            Direction::DESC => "DESC",
        }
    }

    /// The comparison operator of a cursor predicate: `>` when ascending,
    /// `<` when descending.
    pub fn comparison(&self) -> (s: &'static str)
        ensures
            s@ == self.spec_comparison(),
    {
        match self {
            Direction::ASC => ">",
            Direction::DESC => "<",
        }
    }
}

/// A read query decorated with a sort order and a window.
#[derive(Debug, Clone, Copy)]
pub struct Paginated<T> {
    pub query: T,
    pub offset: i64,
    pub limit: i64,
    pub column: &'static str,
    pub direction: Direction,
}

/// Any query can be paginated.
pub trait Paginate: Sized {
    /// Wraps the query: rows from `offset` on, at most [`DEFAULT_LIMIT`] of
    /// them, sorted by `id`, descending.
    fn paginate(self, offset: i64) -> (p: Paginated<Self>)
        ensures
            p == (Paginated {
                query: self,
                offset,
                limit: DEFAULT_LIMIT,
                column: "id",
                direction: Direction::DESC,
            }),
    ;
}

impl<T> Paginate for T {
    fn paginate(self, offset: i64) -> (p: Paginated<Self>) {
        Paginated {
            query: self,
            offset,
            limit: DEFAULT_LIMIT,
            column: "id",
            direction: Direction::DESC,
        }
    }
}

impl<T> Paginated<T> {
    /// The same query with another limit.
    pub fn limit(self, limit: i64) -> (p: Self)
        ensures
            p == (Paginated { limit, ..self }),
    {
        Paginated { limit, ..self }
    }

    /// The same query sorted by another column.
    pub fn column(self, column: &'static str) -> (p: Self)
        ensures
            p == (Paginated { column, ..self }),
    {
        Paginated { column, ..self }
    }

    /// The same query sorted in another direction.
    pub fn direction(self, direction: Direction) -> (p: Self)
        ensures
            p == (Paginated { direction, ..self }),
    {
        Paginated { direction, ..self }
    }
}

/// The query windowed as a listing asks for it: from `offset` on, or from
/// the first row where none is given, and with `limit`, or the default one
/// where none is given.
pub open spec fn spec_windowed<T>(query: T, offset: Option<i64>, limit: Option<i64>) -> Paginated<
    T,
> {
    Paginated {
        query,
        offset: match offset {
            Some(offset) => offset,
            None => 0,
        },
        limit: match limit {
            Some(limit) => limit,
            None => DEFAULT_LIMIT,
        },
        column: "id",
        direction: Direction::DESC,
    }
}

/// Windows a query as a listing asks for it.
pub fn windowed<T>(query: T, offset: Option<i64>, limit: Option<i64>) -> (p: Paginated<T>)
    ensures
        p == spec_windowed(query, offset, limit),
{
    let p = query.paginate(
        match offset {
            Some(offset) => offset,
            None => 0,
        },
    );
    match limit {
        Some(limit) => p.limit(limit),
        None => p,
    }
}

/// One step of rendering a paginated query as SQL.
#[derive(Debug)]
pub enum SqlPart {
    /// Literal SQL text.
    Text(String),
    /// The wrapped query renders itself here.
    Query,
    /// The limit is bound here, as a 64-bit integer parameter.
    BindLimit,
    /// The offset is bound here, as a 64-bit integer parameter.
    BindOffset,
}

/// The mathematical content of a [`SqlPart`].
pub enum SqlPartView {
    Text(Seq<char>),
    Query,
    BindLimit,
    BindOffset,
}

impl View for SqlPart {
    type V = SqlPartView;

    open spec fn view(&self) -> SqlPartView {
        match self {
            SqlPart::Text(s) => SqlPartView::Text(s@),
            SqlPart::Query => SqlPartView::Query,
            SqlPart::BindLimit => SqlPartView::BindLimit,
            SqlPart::BindOffset => SqlPartView::BindOffset,
        }
    }
}

/// The views of the parts, in order.
pub open spec fn parts_view(parts: Seq<SqlPart>) -> Seq<SqlPartView> {
    Seq::new(parts.len(), |i: int| parts[i]@)
}

impl<T> Paginated<T> {
    /// The `ORDER BY` clause and the keyword that opens the limit:
    /// ` ORDER BY <column> <direction> LIMIT `.
    pub open spec fn spec_order_clause(self) -> Seq<char> {
        " ORDER BY "@ + self.column@ + " "@ + self.direction.spec_keyword() + " LIMIT "@
    }

    /// The end of the statement: the window is joined to the count, and the
    /// rows stay in their order: `) page ON TRUE ORDER BY page.<column>
    /// <direction>`.
    pub open spec fn spec_join_clause(self) -> Seq<char> {
        ") page ON TRUE ORDER BY page."@ + self.column@ + " "@ + self.direction.spec_keyword()
    }

    /// The statement that selects the window and, beside each row, the count
    /// of all rows that the wrapped query matches. The wrapped query is
    /// rendered once, as `matched`; the count is taken over all of `matched`
    /// and the window is cut out of it, and the window is joined to the
    /// count from the left, so that the count comes back even where no row
    /// lies in the window: then it comes with a row of nulls.
    pub open spec fn spec_walk_ast(self) -> Seq<SqlPartView> {
        seq![
            SqlPartView::Text("WITH matched AS ("@),
            SqlPartView::Query,
            SqlPartView::Text(
                ") SELECT page.*, total.matching FROM (SELECT COUNT(*) AS matching FROM matched) total LEFT JOIN (SELECT * FROM matched"@,
            ),
            SqlPartView::Text(self.spec_order_clause()),
            SqlPartView::BindLimit,
            SqlPartView::Text(" OFFSET "@),
            SqlPartView::BindOffset,
            SqlPartView::Text(self.spec_join_clause()),
        ]
    }

    /// ` ORDER BY <column> <direction> LIMIT `.
    pub fn order_clause(&self) -> (s: String)
        ensures
            s@ == self.spec_order_clause(),
    {
        let mut s = String::from_str(" ORDER BY ");
        s.append(self.column);
        s.append(" ");
        s.append(self.direction.keyword());
        s.append(" LIMIT ");
        s
    }

    /// `) page ON TRUE ORDER BY page.<column> <direction>`.
    pub fn join_clause(&self) -> (s: String)
        ensures
            s@ == self.spec_join_clause(),
    {
        let mut s = String::from_str(") page ON TRUE ORDER BY page.");
        s.append(self.column);
        s.append(" ");
        s.append(self.direction.keyword());
        s
    }

    /// Renders the paginated query: the wrapped query becomes `matched`, the
    /// count is taken over all of it, and its rows are sorted, cut to the
    /// window and joined to the count. One statement, so rows and count come
    /// from one reading of the data, and the count comes back whatever the
    /// window.
    pub fn walk_ast(&self) -> (parts: Vec<SqlPart>)
        ensures
            parts_view(parts@) == self.spec_walk_ast(),
    {
        let mut parts: Vec<SqlPart> = Vec::new();
        parts.push(SqlPart::Text(String::from_str("WITH matched AS (")));
        parts.push(SqlPart::Query);
        parts.push(
            SqlPart::Text(
                String::from_str(
                    ") SELECT page.*, total.matching FROM (SELECT COUNT(*) AS matching FROM matched) total LEFT JOIN (SELECT * FROM matched",
                ),
            ),
        );
        parts.push(SqlPart::Text(self.order_clause()));
        parts.push(SqlPart::BindLimit);
        parts.push(SqlPart::Text(String::from_str(" OFFSET ")));
        parts.push(SqlPart::BindOffset);
        parts.push(SqlPart::Text(self.join_clause()));
        assert(parts_view(parts@) =~= self.spec_walk_ast());
        parts
    }
}

/// One page of a listing: the rows of the window and the count of all rows
/// that match, whatever the window.
#[derive(Debug)]
pub struct Page<R> {
    pub records: Vec<R>,
    pub total_matching: i64,
}

/// The smaller of two integers.
pub open spec fn min_int(a: int, b: int) -> int {
    if a <= b {
        a
    } else {
        b
    }
}

/// The rows of `rows` from `offset` on, at most `limit` of them.
pub open spec fn window_of<R>(rows: Seq<R>, offset: int, limit: int) -> Seq<R>
    recommends
        0 <= offset,
        0 <= limit,
{
    rows.subrange(min_int(offset, rows.len() as int), min_int(offset + limit, rows.len() as int))
}

/// What the store answers to the rendered statement when `rows` are the rows
/// that the wrapped query matches, in sorted order: the rows of the window,
/// each with the count of all of `rows` beside it; and where no row lies in
/// the window, the count alone, beside no row.
pub open spec fn counted_window_of<R>(rows: Seq<R>, offset: int, limit: int) -> Seq<
    (Option<R>, i64),
>
    recommends
        0 <= offset,
        0 <= limit,
        rows.len() <= i64::MAX,
{
    if window_of(rows, offset, limit).len() == 0 {
        seq![(None::<R>, rows.len() as i64)]
    } else {
        window_of(rows, offset, limit).map_values(|r: R| (Some(r), rows.len() as i64))
    }
}

/// The rows of an answer, in order, without their counts.
pub open spec fn records_of<R>(counted: Seq<(Option<R>, i64)>) -> Seq<R>
    decreases counted.len(),
{
    if counted.len() == 0 {
        Seq::empty()
    } else {
        match counted.last().0 {
            Some(row) => records_of(counted.drop_last()).push(row),
            None => records_of(counted.drop_last()),
        }
    }
}

/// The count that an answer carries: the one beside its first row. (The
/// rendered statement always answers with a row; of no answer at all, 0 is
/// read.)
pub open spec fn total_of<R>(counted: Seq<(Option<R>, i64)>) -> i64 {
    if counted.len() > 0 {
        counted[0].1
    } else {
        0
    }
}

impl<T> Paginated<T> {
    /// Whether offset and limit describe a window: neither is negative.
    pub open spec fn spec_has_window(self) -> bool {
        0 <= self.offset && 0 <= self.limit
    }

    /// Whether offset and limit describe a window: neither is negative.
    pub fn has_window(&self) -> (b: bool)
        ensures
            b == self.spec_has_window(),
    {
        0 <= self.offset && 0 <= self.limit
    }

    /// Whether `page` is the page of this query over `rows`, the rows that
    /// the wrapped query matches, in sorted order.
    pub open spec fn is_page_of<R>(self, rows: Seq<R>, page: Page<R>) -> bool {
        &&& page.records@ == window_of(rows, self.offset as int, self.limit as int)
        &&& page.total_matching == rows.len()
    }

    /// Cuts the window out of `rows`, the rows that the wrapped query
    /// matches, in sorted order, and counts them all.
    pub fn page<R>(&self, rows: Vec<R>) -> (page: Page<R>)
        requires
            self.spec_has_window(),
            rows@.len() <= i64::MAX,
        ensures
            self.is_page_of(rows@, page),
            page.records@.len() <= self.limit,
            page.records@.len() <= rows@.len(),
    {
        let mut rows = rows;
        let n = rows.len();
        let start = if self.offset as u64 >= n as u64 {
            n
        } else {
            self.offset as usize
        };
        let room = n - start;
        let end = if self.limit as u64 >= room as u64 {
            n
        } else {
            start + self.limit as usize
        };
        let ghost all = rows@;
        rows.truncate(end);
        let records = rows.split_off(start);
        assert(records@ =~= window_of(all, self.offset as int, self.limit as int));
        Page { records, total_matching: n as i64 }
    }
}

impl<R> Page<R> {
    /// Reads a page off the store's answer to the rendered statement: the
    /// rows without their counts, and the count beside the first of them.
    /// Whatever window was asked for, what is read off the store's answer is
    /// the page of that window: its rows, and the count of all rows that
    /// match.
    pub fn from_counted(counted: Vec<(Option<R>, i64)>) -> (page: Page<R>)
        ensures
            page.records@ == records_of(counted@),
            page.total_matching == total_of(counted@),
            forall|rows: Seq<R>, offset: int, limit: int|
                0 <= offset && 0 <= limit && rows.len() <= i64::MAX && counted@
                    == #[trigger] counted_window_of(rows, offset, limit) ==> page.records@
                    == window_of(rows, offset, limit) && page.total_matching == rows.len(),
    {
        let total_matching = if counted.len() > 0 {
            counted[0].1
        } else {
            0
        };
        let ghost answer = counted@;
        let mut records: Vec<R> = Vec::new();
        for row in it: counted.into_iter()
            invariant
                it.seq() == answer,
                records@ == records_of(answer.take(it.index() as int)),
        {
            proof {
                let done = it.index() as int;
                assert(answer.take(done + 1).drop_last() =~= answer.take(done));
                assert(answer.take(done + 1).last() == row);
            }
            match row.0 {
                Some(record) => records.push(record),
                None => {},
            }
        }
        proof {
            assert(answer.take(answer.len() as int) =~= answer);
            assert forall|rows: Seq<R>, offset: int, limit: int|
                0 <= offset && 0 <= limit && rows.len() <= i64::MAX && answer
                    == #[trigger] counted_window_of(
                    rows,
                    offset,
                    limit,
                ) implies records@ == window_of(rows, offset, limit) && total_matching
                == rows.len() by {
                lemma_answer_holds_page(rows, offset, limit);
            }
        }
        Page { records, total_matching }
    }
}

/// A page never holds more rows than the limit, nor more than there are,
/// and its count is that of all the rows, whatever the window.
pub proof fn lemma_page_within_limit<T, R>(query: Paginated<T>, rows: Seq<R>, page: Page<R>)
    requires
        query.spec_has_window(),
        query.is_page_of(rows, page),
    ensures
        page.records@.len() <= query.limit,
        page.records@.len() <= rows.len(),
        page.total_matching == rows.len(),
        page.records@.len() == min_int(
            query.limit as int,
            rows.len() - min_int(query.offset as int, rows.len() as int),
        ),
{
}

/// Whether the rows stand in the order of their sort keys in the given
/// direction.
pub open spec fn sorted_by<R>(rows: Seq<R>, key: spec_fn(R) -> int, direction: Direction) -> bool {
    forall|i: int, j: int|
        0 <= i <= j < rows.len() ==> direction.in_order(
            key(#[trigger] rows[i]),
            key(#[trigger] rows[j]),
        )
}

/// A page keeps the order of the rows: it holds the rows that rank from the
/// offset on, one after the other, so a page of sorted rows is sorted.
pub proof fn lemma_page_keeps_order<T, R>(
    query: Paginated<T>,
    rows: Seq<R>,
    page: Page<R>,
    key: spec_fn(R) -> int,
)
    requires
        query.spec_has_window(),
        query.is_page_of(rows, page),
    ensures
        forall|i: int|
            0 <= i < page.records@.len() ==> #[trigger] page.records@[i] == rows[query.offset + i],
        sorted_by(rows, key, query.direction) ==> sorted_by(page.records@, key, query.direction),
{
    let records = page.records@;
    assert forall|i: int| 0 <= i < records.len() implies #[trigger] records[i] == rows[query.offset
        + i] by {}
    if sorted_by(rows, key, query.direction) {
        assert forall|i: int, j: int| 0 <= i <= j < records.len() implies query.direction.in_order(
            key(#[trigger] records[i]),
            key(#[trigger] records[j]),
        ) by {
            assert(records[i] == rows[query.offset + i]);
            assert(records[j] == rows[query.offset + j]);
        }
    }
}

/// Reading the same rows with the same window twice gives the same rows in
/// the same order, and the same count.
pub proof fn lemma_page_is_determined<T, R>(
    query: Paginated<T>,
    rows: Seq<R>,
    first: Page<R>,
    second: Page<R>,
)
    requires
        query.is_page_of(rows, first),
        query.is_page_of(rows, second),
    ensures
        first.records@ == second.records@,
        first.total_matching == second.total_matching,
{
}

/// The rows of an answer in which every row is there are those rows.
proof fn lemma_records_of_rows<R>(rows: Seq<R>, count: i64)
    ensures
        records_of(rows.map_values(|r: R| (Some(r), count))) == rows,
    decreases rows.len(),
{
    let counted = rows.map_values(|r: R| (Some(r), count));
    if rows.len() > 0 {
        lemma_records_of_rows(rows.drop_last(), count);
        assert(counted.drop_last() =~= rows.drop_last().map_values(|r: R| (Some(r), count)));
        assert(counted.last() == (Some(rows.last()), count));
        assert(rows.drop_last().push(rows.last()) =~= rows);
    } else {
        assert(records_of(counted) =~= rows);
    }
}

/// The store's answer holds the page, whatever the window: its rows are the
/// rows of the window, and the count that it carries is the count of all
/// rows that match, also where no row lies in the window.
pub proof fn lemma_answer_holds_page<R>(rows: Seq<R>, offset: int, limit: int)
    requires
        0 <= offset,
        0 <= limit,
        rows.len() <= i64::MAX,
    ensures
        counted_window_of(rows, offset, limit).len() > 0,
        records_of(counted_window_of(rows, offset, limit)) == window_of(rows, offset, limit),
        total_of(counted_window_of(rows, offset, limit)) == rows.len(),
{
    let window = window_of(rows, offset, limit);
    let counted = counted_window_of(rows, offset, limit);
    if window.len() == 0 {
        assert(counted.drop_last() =~= Seq::<(Option<R>, i64)>::empty());
        assert(records_of(counted.drop_last()) =~= Seq::<R>::empty());
        assert(records_of(counted) =~= window);
    } else {
        lemma_records_of_rows(window, rows.len() as i64);
    }
}

} // verus!
