//! Fetches verified smart-contract sources from a block explorer and lays
//! them out as files: the decisions (which request, which payload shape,
//! which files with which contents) live here, with their contracts.
pub mod address;
pub mod chain;
pub mod fetch;
pub mod json;
pub mod laws;
pub mod payload;
