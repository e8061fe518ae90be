//! The COBOL-to-Arrow mapping rules.
use vstd::prelude::*;

use crate::types::{ArrowField, ArrowSchema, ArrowType, CobolEncoding, CobolField, CobolLayout};

verus! {

/// The largest decimal digit count whose every value fits in a signed 32-bit integer.
pub const INT32_MAX_DIGITS: u32 = 9;

/// The largest decimal digit count whose every value fits in a signed 64-bit integer.
pub const INT64_MAX_DIGITS: u32 = 18;

/// The Arrow type of a DISPLAY or COMP-3 fixed-point numeric of `digits` digits, `scale` of them
/// after the implied decimal point.
pub open spec fn fixed_decimal_type(digits: u32, scale: u32) -> ArrowType {
    if scale > 0 {
        ArrowType::Decimal128 { precision: digits, scale }
    } else if digits <= INT32_MAX_DIGITS {
        ArrowType::Int32
    } else if digits <= INT64_MAX_DIGITS {
        ArrowType::Int64
    } else {
        ArrowType::Decimal128 { precision: digits, scale: 0 }
    }
}

fn map_fixed_decimal(digits: u32, scale: u32) -> (t: ArrowType)
    ensures
        t == fixed_decimal_type(digits, scale),
{
    if scale > 0 {
        ArrowType::Decimal128 { precision: digits, scale }
    } else if digits <= INT32_MAX_DIGITS {
        ArrowType::Int32
    } else if digits <= INT64_MAX_DIGITS {
        ArrowType::Int64
    } else {
        ArrowType::Decimal128 { precision: digits, scale: 0 }
    }
}

/// The Arrow type of a COBOL encoding, by the documented rules:
/// `PIC X` -> `Utf8`; DISPLAY and COMP-3 numerics by [`fixed_decimal_type`]; binary of at most
/// 4 bytes -> `Int32`, wider -> `Int64`; COMP-1 -> `Float32`; COMP-2 -> `Float64`.
pub open spec fn encoding_type(enc: CobolEncoding) -> ArrowType {
    match enc {
        CobolEncoding::Alphanumeric { .. } => ArrowType::Utf8,
        CobolEncoding::DisplayNumeric { digits, scale, .. } => fixed_decimal_type(digits, scale),
        CobolEncoding::Packed { digits, scale, .. } => fixed_decimal_type(digits, scale),
        CobolEncoding::Binary { bytes, .. } => if bytes <= 4 {
            ArrowType::Int32
        } else {
            ArrowType::Int64
        },
        CobolEncoding::Float => ArrowType::Float32,
        CobolEncoding::Double => ArrowType::Float64,
    }
}

/// The Arrow field a COBOL field maps to: same name, the encoding's Arrow type, and never
/// nullable (COBOL fixed records carry no NULL marker).
pub open spec fn field_view(f: (Seq<char>, CobolEncoding)) -> (Seq<char>, ArrowType, bool) {
    (f.0, encoding_type(f.1), false)
}

/// The Arrow schema a COBOL layout maps to: its fields mapped one by one, in order.
pub open spec fn schema_view(layout: (Seq<char>, Seq<(Seq<char>, CobolEncoding)>)) -> Seq<(Seq<char>, ArrowType, bool)> {
    layout.1.map_values(|f: (Seq<char>, CobolEncoding)| field_view(f))
}

/// Map a single COBOL encoding to its Arrow logical type, following the documented rules.
pub fn map_encoding(enc: &CobolEncoding) -> (t: ArrowType)
    ensures
        t == encoding_type(*enc),
{
    match *enc {
        CobolEncoding::Alphanumeric { .. } => ArrowType::Utf8,
        CobolEncoding::DisplayNumeric { digits, scale, .. } => map_fixed_decimal(digits, scale),
        CobolEncoding::Packed { digits, scale, .. } => map_fixed_decimal(digits, scale),
        CobolEncoding::Binary { bytes, .. } => {
            if bytes <= 4 {
                ArrowType::Int32
            } else {
                ArrowType::Int64
            }
        },
        CobolEncoding::Float => ArrowType::Float32,
        CobolEncoding::Double => ArrowType::Float64,
    }
}

/// Map a [`CobolField`] to an [`ArrowField`]. COBOL fixed records carry no NULL marker, so the
/// mapped field is non-nullable.
pub fn map_field(field: &CobolField) -> (f: ArrowField)
    ensures
        f@ == field_view(field@),
{
    ArrowField { name: field.name.clone(), data_type: map_encoding(&field.encoding), nullable: false }
}

/// Map a whole [`CobolLayout`] to an [`ArrowSchema`], field by field, preserving order.
pub fn map_layout(layout: &CobolLayout) -> (schema: ArrowSchema)
    ensures
        schema@ == schema_view(layout@),
{
    let n = layout.fields.len();
    let mut fields: Vec<ArrowField> = Vec::with_capacity(n);
    let mut i: usize = 0;
    while i < n
        invariant
            n == layout.fields.len(),
            i <= n,
            fields.len() == i,
            forall|j: int| 0 <= j < i ==> #[trigger] fields@[j]@ == field_view(layout.fields@[j]@),
        decreases n - i,
    {
        let f = map_field(&layout.fields[i]);
        fields.push(f);
        i = i + 1;
    }
    let schema = ArrowSchema { fields };
    assert(schema@ =~= schema_view(layout@));
    schema
}

} // verus!
