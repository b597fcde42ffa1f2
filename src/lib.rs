//! Chain metadata and helpers.
//!
//! A registry snapshot of blockchain networks becomes a closed set of known chains
//! (`Chain`), each with its information, a lookup by chain id, and the full records
//! (`all_chains`). The generation step (`table::generate_table`) validates a
//! snapshot, names each chain and orders the table by chain id.
//!
//! The bundled table is a fixed subset of the public registry: nine widely used
//! chains. Any other chain id is reported as not supported; a full snapshot can be
//! loaded and checked with `schema::validate_records` and `table::generate_table`.
pub mod acquire;
pub mod chain;
pub mod eip;
pub mod hexfmt;
pub mod sanitize;
pub mod schema;
pub mod table;
pub mod text;

pub use chain::{all_chains, Chain, ChainIdNotSupported};
pub use table::{BlockCount, ChainInfo};
