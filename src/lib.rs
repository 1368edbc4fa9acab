//! Watches a code-hosting service for commits authored by chosen collaborators
//! and approves them: the verified core of request building, proxy failover,
//! collaborator ordering, commit matching and the poll cycle.

pub mod collaborator;
pub mod commit;
pub mod driver;
pub mod poll;
pub mod repository;
pub mod requests;
pub mod text_order;
pub mod transport;
pub mod user_input_generator;
