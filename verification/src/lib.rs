//! kobold-arrow: maps a declared COBOL fixed-record layout to the equivalent Apache Arrow
//! schema (field name, Arrow logical type, nullability), with the mapping rules proved.
//!
//! - `types`: the COBOL layout and Arrow schema data types and their mathematical views.
//! - `mapping`: the mapping rules, as spec functions and as verified executable functions.
//! - `laws`: properties of the mapping that hold for every input.

pub mod types;
pub mod mapping;
pub mod laws;

pub use types::{ArrowField, ArrowSchema, ArrowType, CobolEncoding, CobolField, CobolLayout};
pub use mapping::{map_encoding, map_field, map_layout};
