use vstd::prelude::*;

use crate::entity::{Entity, Timestamp};
use crate::params::{query_window, ListQuery, PageWindow};
use crate::store::{
    ids_exhausted, inserted, listing, views, MemoryTable, StoreError,
};

verus! {

/// The `text` field of a create request's body.
pub enum TextField {
    /// The body has no `text` field.
    Absent,
    /// The field holds a JSON string; this is its content.
    Text(String),
    /// The field holds another JSON value; this is its JSON text.
    Other(String),
}

/// The text a create request stores, if any.
pub open spec fn text_to_store(field: TextField) -> Option<Seq<char>> {
    match field {
        TextField::Absent => None,
        TextField::Text(s) => Some(s@),
        TextField::Other(s) => Some(s@),
    }
}

/// Decides what a create request inserts: the field's text when it is
/// present, nothing when it is absent.
pub fn create_text(field: TextField) -> (r: Option<String>)
    ensures
        match r {
            Some(s) => text_to_store(field) == Some(s@),
            None => text_to_store(field) is None,
        },
{
    match field {
        TextField::Absent => None,
        TextField::Text(s) => Some(s),
        TextField::Other(s) => Some(s),
    }
}

/// The status that a successful request answers with.
pub const STATUS_OK: u16 = 200;

/// The status that a request whose statement failed answers with.
pub const STATUS_SERVER_ERROR: u16 = 500;

/// What the service answers.
#[derive(Debug)]
pub enum Reply {
    /// A create request succeeded; the body is empty.
    Created,
    /// A listing succeeded; the body is `{"list": [...]}` with these records.
    Listing(Vec<Entity>),
    /// The store failed; the body is this plain-text description.
    Failure(String),
}

impl Reply {
    pub open spec fn status_spec(&self) -> u16 {
        match self {
            Reply::Failure(_) => STATUS_SERVER_ERROR,
            _ => STATUS_OK,
        }
    }

    /// The HTTP status of the reply.
    pub fn status(&self) -> (r: u16)
        ensures
            r == self.status_spec(),
    {
        match self {
            Reply::Failure(_) => STATUS_SERVER_ERROR,
            _ => STATUS_OK,
        }
    }
}

/// The reply to a create request, from the outcome of its insert (`Ok` also
/// where nothing was inserted).
pub fn create_reply(outcome: Result<(), StoreError>) -> (r: Reply)
    ensures
        match outcome {
            Ok(()) => r is Created,
            Err(e) => r matches Reply::Failure(m) && m@ == e.message_spec(),
        },
{
    match outcome {
        Ok(()) => Reply::Created,
        Err(e) => Reply::Failure(e.message()),
    }
}

/// The reply to a listing request, from the outcome of its select.
pub fn list_reply(outcome: Result<Vec<Entity>, StoreError>) -> (r: Reply)
    ensures
        match outcome {
            Ok(v) => r matches Reply::Listing(w) && w@ == v@,
            Err(e) => r matches Reply::Failure(m) && m@ == e.message_spec(),
        },
{
    match outcome {
        Ok(v) => Reply::Listing(v),
        Err(e) => Reply::Failure(e.message()),
    }
}

/// Serves a create request against an in-memory table, with `now` as the
/// request's time.
pub fn handle_create(table: &mut MemoryTable, field: TextField, now: Timestamp) -> (r: Reply)
    requires
        old(table).wf(),
    ensures
        final(table).wf(),
        match text_to_store(field) {
            None => {
                &&& final(table)@ == old(table)@
                &&& r is Created
            },
            Some(t) => if ids_exhausted(old(table)@) {
                &&& final(table)@ == old(table)@
                &&& r is Failure
            } else {
                &&& final(table)@ == inserted(old(table)@, t, now.micros)
                &&& r is Created
            },
        },
{
    match create_text(field) {
        None => create_reply(Ok(())),
        Some(text) => {
            let outcome = match table.insert(text, now) {
                Ok(_) => Ok(()),
                Err(e) => Err(e),
            };
            create_reply(outcome)
        },
    }
}

/// Serves a listing request against an in-memory table.
pub fn handle_list(table: &MemoryTable, query: &ListQuery) -> (r: Reply)
    requires
        table.wf(),
    ensures
        ({
            let w = query_window(*query);
            if w.limit < 0 || w.offset < 0 {
                r is Failure
            } else {
                r matches Reply::Listing(v) && views(v@) == listing(
                    table@,
                    w.limit as int,
                    w.offset as int,
                )
            }
        }),
{
    let w: PageWindow = query.window();
    list_reply(table.list(w.limit as i64, w.offset))
}

} // verus!
