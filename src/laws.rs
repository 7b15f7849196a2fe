use vstd::prelude::*;

use crate::entity::EntityView;
use crate::params::{
    param_value, parsed_i32, query_window, window_spec, ListQuery, DEFAULT_COUNT, DEFAULT_PAGE,
};
use crate::store::{ids_exhausted, inserted, listing, newest_first, well_formed};

verus! {

/// Inserting into well-formed rows keeps them well-formed.
pub proof fn insert_keeps_well_formed(rows: Seq<EntityView>, text: Seq<char>, now: i64)
    requires
        well_formed(rows),
        !ids_exhausted(rows),
    ensures
        well_formed(inserted(rows, text, now)),
{
    let after = inserted(rows, text, now);
    assert forall|i: int, j: int| 0 <= i < j < after.len() implies after[i].id < after[j].id by {
        if j == rows.len() {
            if i < rows.len() - 1 {
                assert(rows[i].id < rows[rows.len() - 1].id);
            }
        }
    }
    assert forall|i: int, j: int| 0 <= i < j < after.len() implies after[i].created_at
        <= after[j].created_at by {
        if j == rows.len() {
            if i < rows.len() - 1 {
                assert(rows[i].created_at <= rows[rows.len() - 1].created_at);
            }
        }
    }
}

/// After a row is created, a listing of page 0 (of any positive size) begins
/// with it: it holds exactly the given text, its id is greater than every id
/// assigned before, and it was created no earlier than the request's time.
pub proof fn created_row_heads_first_page(
    rows: Seq<EntityView>,
    text: Seq<char>,
    now: i64,
    count: i32,
)
    requires
        well_formed(rows),
        !ids_exhausted(rows),
        count > 0,
    ensures
        ({
            let page = listing(inserted(rows, text, now), count as int, 0);
            &&& page.len() >= 1
            &&& page[0].text == text
            &&& forall|i: int| 0 <= i < rows.len() ==> rows[i].id < page[0].id
            &&& page[0].created_at >= now
        }),
{
    let after = inserted(rows, text, now);
    let page = listing(after, count as int, 0);
    assert(page[0] == after[after.len() - 1]);
    assert forall|i: int| 0 <= i < rows.len() implies rows[i].id < page[0].id by {
        if i < rows.len() - 1 {
            assert(rows[i].id < rows[rows.len() - 1].id);
        }
    }
}

/// A page asked for with `page >= 0` and `count > 0` holds at most `count`
/// rows, by id strictly descending.
pub proof fn page_is_bounded_and_descending(rows: Seq<EntityView>, page: i32, count: i32)
    requires
        well_formed(rows),
        page >= 0,
        count > 0,
    ensures
        ({
            let w = window_spec(Some(page), Some(count));
            let got = listing(rows, w.limit as int, w.offset as int);
            &&& w.limit == count
            &&& w.offset == count as int * page as int
            &&& got.len() <= count
            &&& forall|i: int, j: int|
                0 <= i < j < got.len() ==> #[trigger] got[i].id > #[trigger] got[j].id
        }),
{
    let w = window_spec(Some(page), Some(count));
    assert(0 <= count as int * page as int <= i32::MAX * i32::MAX) by (nonlinear_arith)
        requires
            0 < count <= i32::MAX,
            0 <= page <= i32::MAX,
    ;
    let got = listing(rows, w.limit as int, w.offset as int);
    let nf = newest_first(rows);
    let n = rows.len() as int;
    let start = if w.offset as int <= n {
        w.offset as int
    } else {
        n
    };
    assert forall|i: int, j: int| 0 <= i < j < got.len() implies #[trigger] got[i].id
        > #[trigger] got[j].id by {
        assert(got[i] == rows[n - 1 - (start + i)]);
        assert(got[j] == rows[n - 1 - (start + j)]);
    }
}

/// A listing whose offset is at or past the number of rows is empty.
pub proof fn offset_past_end_is_empty(rows: Seq<EntityView>, limit: int, offset: int)
    requires
        limit >= 0,
        offset >= rows.len(),
    ensures
        listing(rows, limit, offset) == Seq::<EntityView>::empty(),
{
    assert(listing(rows, limit, offset) =~= Seq::<EntityView>::empty());
}

/// A `page` parameter that does not parse as an integer acts as an omitted
/// one: page 0.
pub proof fn unparseable_page_is_omitted(page: String, count: Option<String>)
    requires
        parsed_i32(page@) is None,
    ensures
        query_window(ListQuery { page: Some(page), count }) == query_window(
            ListQuery { page: None, count },
        ),
        query_window(ListQuery { page: Some(page), count }).offset == 0,
{
    let c: i32 = match param_value(count) {
        Some(c) => c,
        None => DEFAULT_COUNT,
    };
    assert(c * DEFAULT_PAGE == 0);
}

/// A `count` parameter that does not parse as an integer acts as an omitted
/// one: pages of 10 rows.
pub proof fn unparseable_count_is_omitted(page: Option<String>, count: String)
    requires
        parsed_i32(count@) is None,
    ensures
        query_window(ListQuery { page, count: Some(count) }) == query_window(
            ListQuery { page, count: None },
        ),
        query_window(ListQuery { page, count: Some(count) }).limit == DEFAULT_COUNT,
{
}

} // verus!
