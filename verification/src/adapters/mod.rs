//! Writers that turn configuration tables into the text of configuration files.

pub mod ini;
pub mod key_value;
pub mod kv_serializer;
pub mod parsers;

use vstd::prelude::*;

verus! {

/// Why a table could not be written out.
#[derive(Debug, PartialEq, Eq, Structural, Clone, Copy)]
pub enum AdapterError {
    /// The table to write has no key ("Configuration table is empty").
    EmptyTable,
}

} // verus!
