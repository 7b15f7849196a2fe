use vstd::prelude::*;

use crate::entity::{Entity, EntityView, Timestamp};

verus! {

/// Why the store could not carry out a statement.
#[derive(Debug)]
pub enum StoreError {
    /// The store could not be reached, or no connection was free.
    Connection(String),
    /// The statement itself failed.
    Query(String),
}

impl StoreError {
    pub open spec fn message_spec(&self) -> Seq<char> {
        match self {
            StoreError::Connection(m) => m@,
            StoreError::Query(m) => m@,
        }
    }

    /// The failure's description as plain text.
    pub fn message(&self) -> (r: String)
        ensures
            r@ == self.message_spec(),
    {
        match self {
            StoreError::Connection(m) => m.clone(),
            StoreError::Query(m) => m.clone(),
        }
    }
}

/// The views of a sequence of records.
pub open spec fn views(rows: Seq<Entity>) -> Seq<EntityView> {
    rows.map_values(|e: Entity| e@)
}

/// Rows in store order (oldest first): ids strictly increase and creation
/// times never go back, and ids start at 1.
pub open spec fn well_formed(rows: Seq<EntityView>) -> bool {
    &&& forall|i: int, j: int|
        0 <= i < j < rows.len() ==> #[trigger] rows[i].id < #[trigger] rows[j].id
    &&& forall|i: int, j: int|
        0 <= i < j < rows.len() ==> #[trigger] rows[i].created_at <= #[trigger] rows[j].created_at
    &&& forall|i: int| 0 <= i < rows.len() ==> #[trigger] rows[i].id >= 1
}

/// The rows newest first, that is by id descending.
pub open spec fn newest_first(rows: Seq<EntityView>) -> Seq<EntityView> {
    Seq::new(rows.len(), |i: int| rows[rows.len() - 1 - i])
}

pub open spec fn min_int(a: int, b: int) -> int {
    if a <= b {
        a
    } else {
        b
    }
}

/// What a listing returns: the rows newest first, past the first `offset`,
/// at most `limit` of them.
pub open spec fn listing(rows: Seq<EntityView>, limit: int, offset: int) -> Seq<EntityView> {
    let n = rows.len() as int;
    newest_first(rows).subrange(min_int(offset, n), min_int(offset + limit, n))
}

/// The id the store assigns to the next row.
pub open spec fn next_id(rows: Seq<EntityView>) -> int {
    if rows.len() == 0 {
        1
    } else {
        rows.last().id + 1
    }
}

/// The creation time of a row inserted at `now`: never before the last row's.
pub open spec fn next_created_at(rows: Seq<EntityView>, now: i64) -> i64 {
    if rows.len() > 0 && rows.last().created_at > now {
        rows.last().created_at
    } else {
        now
    }
}

/// The rows after inserting `text` at time `now`.
pub open spec fn inserted(rows: Seq<EntityView>, text: Seq<char>, now: i64) -> Seq<EntityView> {
    rows.push(
        EntityView { id: next_id(rows) as u64, text, created_at: next_created_at(rows, now) },
    )
}

/// The ids are used up: no row can be inserted.
pub open spec fn ids_exhausted(rows: Seq<EntityView>) -> bool {
    rows.len() > 0 && rows.last().id == u64::MAX
}

/// A table of records held in memory, with the semantics of the service's
/// insert and paginated select.
pub struct MemoryTable {
    rows: Vec<Entity>,
}

impl View for MemoryTable {
    type V = Seq<EntityView>;

    closed spec fn view(&self) -> Seq<EntityView> {
        views(self.rows@)
    }
}

impl MemoryTable {
    pub open spec fn wf(&self) -> bool {
        well_formed(self@)
    }

    /// An empty table.
    pub fn new() -> (r: MemoryTable)
        ensures
            r.wf(),
            r@ == Seq::<EntityView>::empty(),
    {
        let r = MemoryTable { rows: Vec::new() };
        assert(r@ =~= Seq::<EntityView>::empty());
        r
    }

    /// The number of rows.
    pub fn len(&self) -> (r: usize)
        ensures
            r == self@.len(),
    {
        self.rows.len()
    }

    /// Inserts a row holding `text`, created at `now` (or at the last row's
    /// creation time, if that is later), and returns its id.
    pub fn insert(&mut self, text: String, now: Timestamp) -> (r: Result<u64, StoreError>)
        requires
            old(self).wf(),
        ensures
            final(self).wf(),
            r is Err <==> ids_exhausted(old(self)@),
            match r {
                Ok(id) => {
                    &&& id == next_id(old(self)@)
                    &&& final(self)@ == inserted(old(self)@, text@, now.micros)
                },
                Err(e) => {
                    &&& final(self)@ == old(self)@
                    &&& e is Query
                },
            },
    {
        let n = self.rows.len();
        let mut id: u64 = 1;
        let mut created_at = now;
        if n > 0 {
            let last = &self.rows[n - 1];
            if last.id == u64::MAX {
                return Err(StoreError::Query(String::from_str("no id is left for a new row")));
            }
            id = last.id + 1;
            if last.created_at.micros > now.micros {
                created_at = last.created_at;
            }
        }
        let ghost before = self@;
        let ghost tv = text@;
        self.rows.push(Entity::new(id, text, created_at));
        assert(self@ =~= inserted(before, tv, now.micros));
        Ok(id)
    }

    /// Returns up to `limit` rows newest first, after skipping `offset` of
    /// them; a negative `limit` or `offset` is a failed statement.
    pub fn list(&self, limit: i64, offset: i64) -> (r: Result<Vec<Entity>, StoreError>)
        requires
            self.wf(),
        ensures
            r is Err <==> (limit < 0 || offset < 0),
            match r {
                Ok(v) => views(v@) == listing(self@, limit as int, offset as int),
                Err(e) => e is Query,
            },
    {
        if limit < 0 || offset < 0 {
            return Err(StoreError::Query(String::from_str("negative limit or offset")));
        }
        let n = self.rows.len();
        let ghost rv = self@;
        let mut out: Vec<Entity> = Vec::new();
        if (offset as u64) >= (n as u64) {
            assert(views(out@) =~= listing(rv, limit as int, offset as int));
            return Ok(out);
        }
        let start = offset as usize;
        let avail = n - start;
        let take: usize = if (limit as u64) < (avail as u64) {
            limit as usize
        } else {
            avail
        };
        let mut k: usize = 0;
        while k < take
            invariant
                start + take <= n,
                n == self.rows@.len(),
                rv == self@,
                k <= take,
                views(out@) =~= newest_first(rv).subrange(start as int, start + k),
            decreases take - k,
        {
            let e = self.rows[n - 1 - start - k].duplicate();
            let ghost prev = out@;
            out.push(e);
            assert(out@ == prev.push(e));
            assert(views(out@) =~= views(prev).push(e@));
            assert(e@ == rv[n - 1 - (start + k)]);
            k = k + 1;
        }
        assert(views(out@) =~= listing(rv, limit as int, offset as int));
        Ok(out)
    }
}

} // verus!
