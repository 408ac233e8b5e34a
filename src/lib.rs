//! A verified facade over a jj repository: identifiers, commit lookup, revset
//! evaluation, graph logs and a single-use transaction handle.
pub mod commit;
pub mod error;
pub mod git;
pub mod hexcode;
pub mod ids;
pub mod log;
pub mod repo;
pub mod revset;
pub mod signature;
pub mod store;
pub mod transaction;
pub mod workspace;
