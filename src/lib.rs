//! Record service core: request parameters, the create and list steps, the
//! replies they produce, and an in-memory table with the semantics of the
//! service's insert and paginated select.
pub mod entity;
pub mod params;
pub mod store;
pub mod handler;
pub mod laws;
