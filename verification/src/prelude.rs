//! The names that most users of the engine need.

pub use crate::error::ParseError;
pub use crate::json::Value;
pub use crate::pdu::{deserialize, Node, Pdu, PduResult, Pob};
pub use crate::raw::Raw;
pub use crate::registry::DissectionTables;
pub use crate::table::{create_table, Dissect, DissectionTable};
pub use crate::tid::{Tid, TypeTag};
pub use crate::utils::{parse_bytes, printable_ascii, Endian};
