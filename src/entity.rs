use vstd::prelude::*;

verus! {

/// A point in time, as microseconds since the Unix epoch (UTC).
#[derive(Clone, Copy, Debug, PartialEq, Eq, Structural)]
pub struct Timestamp {
    pub micros: i64,
}

/// One stored record.
#[derive(Debug)]
pub struct Entity {
    pub id: u64,
    pub text: String,
    pub created_at: Timestamp,
}

/// What a record holds, as mathematical values.
pub struct EntityView {
    pub id: u64,
    pub text: Seq<char>,
    pub created_at: i64,
}

impl View for Entity {
    type V = EntityView;

    open spec fn view(&self) -> EntityView {
        EntityView { id: self.id, text: self.text@, created_at: self.created_at.micros }
    }
}

impl Entity {
    pub fn new(id: u64, text: String, created_at: Timestamp) -> (r: Entity)
        ensures
            r@ == (EntityView { id, text: text@, created_at: created_at.micros }),
    {
        Entity { id, text, created_at }
    }

    /// A copy of the record.
    pub fn duplicate(&self) -> (r: Entity)
        ensures
            r@ == self@,
    {
        Entity { id: self.id, text: self.text.clone(), created_at: self.created_at }
    }
}

} // verus!
