//! Request handling of a read-only NFT API: pagination, query filters,
//! identity strings, visitor tokens and the replies of each endpoint.
//!
//! The HTTP server and the database live outside this library; what is here
//! decides what is asked of them and what is answered.

pub mod endpoints;
pub mod filter;
pub mod text;
pub mod reply;
