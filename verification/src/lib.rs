//! The core of a command-line trading client: it turns what a user asks for
//! into requests to a brokerage service, and what the service answers into
//! text in aligned columns.

pub mod account;
pub mod decimal;
pub mod id;
pub mod listing;
pub mod order;
pub mod router;
pub mod sorting;
pub mod text;
