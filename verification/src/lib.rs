//! Core domain logic of a ticketing platform backend: scoped authorization,
//! ticket pricing period validation, and inventory accounting.
//!
//! The library is organised around four components:
//! - scope resolution: mapping role names to a sorted, deduplicated list of
//!   permission scopes by hierarchical role inheritance (`scopes`);
//! - pricing period validation: non-overlap of published price windows and
//!   selection of the window active at a given time (`pricing`);
//! - inventory accounting: capacity, reservations and releases for a ticket
//!   type (`inventory`);
//! - the authorization gate: granting or denying an operation from resolved
//!   scopes and organization membership (`authorization`).

pub mod authorization;
pub mod chat_workflow;
pub mod config;
pub mod dates;
pub mod errors;
pub mod events;
pub mod fees;
pub mod inventory;
pub mod invites;
pub mod lex;
pub mod numbers;
pub mod paging;
pub mod pricing;
pub mod scopes;
pub mod ticket_types;
pub mod users;
pub mod venues;

pub use pricing::overlaps;
