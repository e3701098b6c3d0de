//! Talking to a Stash server: the entity types, the GraphQL queries and
//! filters, and the request and response logic of the client.

pub mod client;
pub mod filters;
pub mod queries;
pub mod types;
