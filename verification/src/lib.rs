//! A privilege-boundary helper for changing one's own default account in a
//! cluster accounting database.
//!
//! The library holds everything the tool decides: the identity gate, the
//! reading of the authority's records, the validation of the requested
//! account, and the single permitted mutation, modelled as a state machine
//! that an unverified outer loop drives.

pub mod command;
pub mod decision;
pub mod driver;
pub mod identity;
pub mod json;
pub mod reader;
pub mod text;
