//! A client core for a cursor-paginated, rate-limited REST API of lists,
//! users and tweets: the response envelope that carries rate-limit
//! accounting, the error taxonomy, the cursor iteration engine, the
//! predicate probe, and the list endpoints built on them.
pub mod cursor;
pub mod error;
pub mod list;
pub mod probe;
pub mod request;
pub mod response;
pub mod traversal;
