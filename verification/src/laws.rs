//! Properties of the COBOL-to-Arrow mapping that hold for every input.
use vstd::prelude::*;
use vstd::arithmetic::power::{pow, lemma_pow_increases};

use crate::mapping::{encoding_type, field_view, fixed_decimal_type, schema_view};
use crate::types::{ArrowType, CobolEncoding};

verus! {

/// The largest value a decimal numeric of `digits` digits can hold, ignoring any decimal point:
/// the all-nines value `10^digits - 1`.
pub open spec fn all_nines(digits: nat) -> int {
    pow(10, digits) - 1
}

/// Whether the encoding is a DISPLAY or COMP-3 fixed-point numeric with these parameters.
pub open spec fn is_fixed_numeric(enc: CobolEncoding, digits: u32, scale: u32) -> bool {
    ||| enc == (CobolEncoding::DisplayNumeric { digits, scale, signed: true })
    ||| enc == (CobolEncoding::DisplayNumeric { digits, scale, signed: false })
    ||| enc == (CobolEncoding::Packed { digits, scale, signed: true })
    ||| enc == (CobolEncoding::Packed { digits, scale, signed: false })
}

proof fn lemma_all_nines_bounds()
    ensures
        all_nines(9) == 999_999_999,
        all_nines(10) == 9_999_999_999,
        all_nines(18) == 999_999_999_999_999_999,
        all_nines(19) == 9_999_999_999_999_999_999,
{
    reveal_with_fuel(pow, 20);
}

/// Decimals are kept exact: a DISPLAY or COMP-3 numeric with a fractional part (`scale > 0`)
/// maps to `Decimal128` with `precision = digits` and `scale = scale`, and any `Decimal128`
/// that a DISPLAY or COMP-3 numeric maps to carries exactly its digits and scale.
pub proof fn law_decimals_are_exact(enc: CobolEncoding, digits: u32, scale: u32)
    requires
        is_fixed_numeric(enc, digits, scale),
    ensures
        scale > 0 ==> encoding_type(enc) == (ArrowType::Decimal128 { precision: digits, scale }),
        encoding_type(enc) matches ArrowType::Decimal128 { precision: p, scale: s } ==> p == digits
            && s == scale,
{
}

/// Decimal numerics are never floated: a DISPLAY or COMP-3 numeric maps to `Int32`, `Int64` or
/// `Decimal128`, never to a floating-point, text, binary or boolean type.
pub proof fn law_fixed_numerics_are_never_floated(enc: CobolEncoding, digits: u32, scale: u32)
    requires
        is_fixed_numeric(enc, digits, scale),
    ensures
        encoding_type(enc) is Int32 || encoding_type(enc) is Int64 || encoding_type(enc) is Decimal128,
{
}

/// The mapping never narrows a value range: an integer DISPLAY or COMP-3 numeric (`scale == 0`)
/// maps to `Int32` only when every value of its digit count fits in a signed 32-bit integer, and
/// to `Int64` only when every such value fits in a signed 64-bit integer.
/// It also picks the narrowest such type: `Int64` only when some value does not fit in 32 bits,
/// and `Decimal128` only when some value does not fit in 64 bits.
pub proof fn law_integer_numerics_fit_and_are_narrowest(enc: CobolEncoding, digits: u32)
    requires
        is_fixed_numeric(enc, digits, 0),
    ensures
        encoding_type(enc) == ArrowType::Int32 ==> all_nines(digits as nat) <= i32::MAX,
        encoding_type(enc) == ArrowType::Int64 ==> i32::MAX < all_nines(digits as nat) <= i64::MAX,
        encoding_type(enc) is Decimal128 ==> i64::MAX < all_nines(digits as nat),
{
    lemma_all_nines_bounds();
    let d = digits as nat;
    if digits <= 9 {
        lemma_pow_increases(10, d, 9);
    } else if digits <= 18 {
        lemma_pow_increases(10, 10, d);
        lemma_pow_increases(10, d, 18);
    } else {
        lemma_pow_increases(10, 19, d);
    }
}

/// The COBOL `signed` flag is carried for documentation only: two encodings that differ in
/// nothing but their sign map to the same Arrow type.
pub proof fn law_sign_does_not_change_type(a: CobolEncoding, b: CobolEncoding)
    requires
        match (a, b) {
            (
                CobolEncoding::DisplayNumeric { digits: d1, scale: s1, .. },
                CobolEncoding::DisplayNumeric { digits: d2, scale: s2, .. },
            ) => d1 == d2 && s1 == s2,
            (
                CobolEncoding::Packed { digits: d1, scale: s1, .. },
                CobolEncoding::Packed { digits: d2, scale: s2, .. },
            ) => d1 == d2 && s1 == s2,
            (
                CobolEncoding::Binary { bytes: b1, .. },
                CobolEncoding::Binary { bytes: b2, .. },
            ) => b1 == b2,
            _ => false,
        },
    ensures
        encoding_type(a) == encoding_type(b),
{
}

/// DISPLAY (zoned) and COMP-3 (packed) numerics share one rule: the same digits and scale map
/// to the same Arrow type whichever way the digits are stored.
pub proof fn law_display_and_packed_agree(digits: u32, scale: u32, s1: bool, s2: bool)
    ensures
        encoding_type(CobolEncoding::DisplayNumeric { digits, scale, signed: s1 }) == encoding_type(
            CobolEncoding::Packed { digits, scale, signed: s2 },
        ),
        encoding_type(CobolEncoding::Packed { digits, scale, signed: s2 }) == fixed_decimal_type(
            digits,
            scale,
        ),
{
}

/// The integer type chosen for a DISPLAY or COMP-3 integer, and for a binary field, never gets
/// narrower as the field gets wider.
pub proof fn law_width_is_monotone(d1: u32, d2: u32, b1: u32, b2: u32)
    requires
        d1 <= d2,
        b1 <= b2,
    ensures
        fixed_decimal_type(d2, 0) == ArrowType::Int32 ==> fixed_decimal_type(d1, 0)
            == ArrowType::Int32,
        fixed_decimal_type(d1, 0) is Decimal128 ==> fixed_decimal_type(d2, 0) is Decimal128,
        encoding_type(CobolEncoding::Binary { bytes: b2, signed: true }) == ArrowType::Int32
            ==> encoding_type(CobolEncoding::Binary { bytes: b1, signed: true }) == ArrowType::Int32,
{
}

/// Alphanumeric text maps to Arrow `Utf8` whatever its declared length.
pub proof fn law_text_is_utf8(len: u32)
    ensures
        encoding_type(CobolEncoding::Alphanumeric { len }) == ArrowType::Utf8,
{
}

/// A binary (COMP / COMP-5) field always maps to an Arrow integer: `Int32` when it is at most
/// 4 bytes wide and `Int64` when it is wider, whether signed or not.
pub proof fn law_binary_is_integer_by_width(bytes: u32, signed: bool)
    ensures
        encoding_type(CobolEncoding::Binary { bytes, signed }) == ArrowType::Int32
            || encoding_type(CobolEncoding::Binary { bytes, signed }) == ArrowType::Int64,
        (encoding_type(CobolEncoding::Binary { bytes, signed }) == ArrowType::Int64) <==> bytes > 4,
        (encoding_type(CobolEncoding::Binary { bytes, signed }) == ArrowType::Int32) <==> bytes <= 4,
{
}

/// Binary floating point keeps its precision: COMP-1 maps to `Float32` and COMP-2 to `Float64`.
pub proof fn law_floats_keep_precision()
    ensures
        encoding_type(CobolEncoding::Float) == ArrowType::Float32,
        encoding_type(CobolEncoding::Double) == ArrowType::Float64,
{
}

/// An integer DISPLAY or COMP-3 numeric maps by its digit count alone: at most 9 digits gives
/// `Int32`, 10 to 18 digits give `Int64`, and more give `Decimal128` with precision = digits
/// and scale 0.
pub proof fn law_integer_numerics_by_digits(enc: CobolEncoding, digits: u32)
    requires
        is_fixed_numeric(enc, digits, 0),
    ensures
        digits <= 9 ==> encoding_type(enc) == ArrowType::Int32,
        9 < digits <= 18 ==> encoding_type(enc) == ArrowType::Int64,
        18 < digits ==> encoding_type(enc) == (ArrowType::Decimal128 { precision: digits, scale: 0 }),
{
}

/// A mapped field keeps the COBOL field's name, takes the Arrow type of its encoding, and is
/// never nullable.
pub proof fn law_field_mapping(f: (Seq<char>, CobolEncoding))
    ensures
        field_view(f).0 == f.0,
        field_view(f).1 == encoding_type(f.1),
        !field_view(f).2,
{
}

/// The default mapper produces only the types its rules name: it never yields
/// `FixedSizeBinary` or `Boolean`.
pub proof fn law_mapper_range(enc: CobolEncoding)
    ensures
        !(encoding_type(enc) is FixedSizeBinary),
        !(encoding_type(enc) is Boolean),
{
}

/// COBOL fixed records have no NULL: every field of every mapped schema is non-nullable.
pub proof fn law_schema_fields_are_non_nullable(
    layout: (Seq<char>, Seq<(Seq<char>, CobolEncoding)>),
    i: int,
)
    requires
        0 <= i < schema_view(layout).len(),
    ensures
        !schema_view(layout)[i].2,
{
}

/// The schema has one field per layout field, in the same order and under the same name, and
/// each field's type is the mapping of that layout field's encoding.
pub proof fn law_schema_follows_layout(layout: (Seq<char>, Seq<(Seq<char>, CobolEncoding)>), i: int)
    requires
        0 <= i < layout.1.len(),
    ensures
        schema_view(layout).len() == layout.1.len(),
        schema_view(layout)[i].0 == layout.1[i].0,
        schema_view(layout)[i].1 == encoding_type(layout.1[i].1),
{
}

/// The mapping works field by field: the schema of a layout whose fields are those of `a`
/// followed by those of `b` is the schema of `a` followed by the schema of `b`, whatever the
/// records' names.
pub proof fn law_schema_of_concatenation(
    a: (Seq<char>, Seq<(Seq<char>, CobolEncoding)>),
    b: (Seq<char>, Seq<(Seq<char>, CobolEncoding)>),
    name: Seq<char>,
)
    ensures
        schema_view((name, a.1 + b.1)) == schema_view(a) + schema_view(b),
{
    assert(schema_view((name, a.1 + b.1)) =~= schema_view(a) + schema_view(b));
}

/// The record's own name does not enter the schema: two layouts with the same fields map to the
/// same schema.
pub proof fn law_record_name_is_irrelevant(
    fields: Seq<(Seq<char>, CobolEncoding)>,
    n1: Seq<char>,
    n2: Seq<char>,
)
    ensures
        schema_view((n1, fields)) == schema_view((n2, fields)),
{
}

/// Mapping a single field agrees with mapping it inside a one-field layout.
pub proof fn law_field_is_one_field_layout(f: (Seq<char>, CobolEncoding), name: Seq<char>)
    ensures
        schema_view((name, seq![f])) == seq![field_view(f)],
{
    assert(schema_view((name, seq![f])) =~= seq![field_view(f)]);
}

} // verus!
