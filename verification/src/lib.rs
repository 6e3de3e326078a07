//! ABI-exact layouts for a versioned native interface.
//!
//! The interface grows from release to release without breaking code that was
//! built against an older one. Two things here describe its memory:
//!
//! - the layout generator, which turns a struct declaration whose fields are
//!   tagged with the version that introduced them into one struct for each
//!   distinct version and a union that overlays them ([`version`], [`config`],
//!   [`fields`], [`layout`], [`names`], [`assemble`]);
//! - the capability register, 128 flags of which each capability has one, at
//!   the bit given by its place in a canonical list ([`capabilities`],
//!   [`capability_list`]).
//!
//! [`constants`] and [`enums`] hold the interface's numbers.

pub mod assemble;
pub mod capabilities;
pub mod capability_list;
pub mod config;
pub mod constants;
pub mod decimal;
pub mod enums;
pub mod fields;
pub mod layout;
pub mod names;
pub mod text;
pub mod version;
