//! The COBOL layout and Arrow schema data types, each with a mathematical view.
use vstd::prelude::*;

verus! {

/// The physical encoding of a COBOL elementary field -- how the declared `PIC`/`USAGE` is stored.
///
/// `digits` is the PIC 9-count (total significant decimal digits); `scale` is the number of those
/// digits to the right of the implied decimal point (`V`); `signed` reflects a leading `S`.
#[derive(Debug, Clone, Copy, PartialEq, Eq, Structural)]
#[non_exhaustive]
pub enum CobolEncoding {
    /// `PIC X(len)` -- opaque alphanumeric text.
    Alphanumeric { len: u32 },
    /// `PIC [S]9(d)[V9(s)]` DISPLAY -- zoned/unpacked decimal stored one digit per byte.
    DisplayNumeric { digits: u32, scale: u32, signed: bool },
    /// `PIC [S]9(d)[V9(s)] COMP-3` -- packed (BCD) decimal.
    Packed { digits: u32, scale: u32, signed: bool },
    /// `PIC [S]9 COMP` / `COMP-5` -- binary integer of `bytes` width.
    Binary { bytes: u32, signed: bool },
    /// `COMP-1` -- single-precision binary floating point.
    Float,
    /// `COMP-2` -- double-precision binary floating point.
    Double,
}

/// A declared COBOL elementary field: its name and physical [`CobolEncoding`].
#[derive(Debug, Clone, PartialEq, Eq)]
pub struct CobolField {
    pub name: String,
    pub encoding: CobolEncoding,
}

/// A COBOL fixed-record layout: a named record and its ordered elementary fields.
#[derive(Debug, Clone, PartialEq, Eq)]
pub struct CobolLayout {
    pub name: String,
    pub fields: Vec<CobolField>,
}

/// An Apache Arrow logical data type -- the subset needed to land fixed-record COBOL data.
#[derive(Debug, Clone, Copy, PartialEq, Eq, Structural)]
#[non_exhaustive]
pub enum ArrowType {
    /// Variable-length UTF-8 string. Arrow `Utf8`.
    Utf8,
    /// 32-bit signed integer. Arrow `Int32`.
    Int32,
    /// 64-bit signed integer. Arrow `Int64`.
    Int64,
    /// Fixed-point 128-bit decimal. Arrow `Decimal128(precision, scale)`.
    Decimal128 { precision: u32, scale: u32 },
    /// 32-bit IEEE-754 float. Arrow `Float32`.
    Float32,
    /// 64-bit IEEE-754 float. Arrow `Float64`.
    Float64,
    /// Fixed-width opaque byte buffer. Arrow `FixedSizeBinary(len)`.
    FixedSizeBinary { len: u32 },
    /// Boolean. Arrow `Boolean`. (Not produced by the default mapper; available for callers.)
    Boolean,
}

/// One Arrow schema field: name, logical [`ArrowType`], and nullability.
#[derive(Debug, Clone, PartialEq, Eq)]
pub struct ArrowField {
    pub name: String,
    pub data_type: ArrowType,
    pub nullable: bool,
}

/// An Arrow schema: the ordered list of [`ArrowField`]s.
#[derive(Debug, Clone, PartialEq, Eq)]
pub struct ArrowSchema {
    pub fields: Vec<ArrowField>,
}

/// A COBOL field seen as its name's characters and its encoding.
impl View for CobolField {
    type V = (Seq<char>, CobolEncoding);

    open spec fn view(&self) -> (Seq<char>, CobolEncoding) {
        (self.name@, self.encoding)
    }
}

/// A COBOL layout seen as its name's characters and the ordered views of its fields.
impl View for CobolLayout {
    type V = (Seq<char>, Seq<(Seq<char>, CobolEncoding)>);

    open spec fn view(&self) -> (Seq<char>, Seq<(Seq<char>, CobolEncoding)>) {
        (self.name@, self.fields@.map_values(|f: CobolField| f@))
    }
}

/// An Arrow field seen as its name's characters, its type and its nullability.
impl View for ArrowField {
    type V = (Seq<char>, ArrowType, bool);

    open spec fn view(&self) -> (Seq<char>, ArrowType, bool) {
        (self.name@, self.data_type, self.nullable)
    }
}

/// An Arrow schema seen as the ordered views of its fields.
impl View for ArrowSchema {
    type V = Seq<(Seq<char>, ArrowType, bool)>;

    open spec fn view(&self) -> Seq<(Seq<char>, ArrowType, bool)> {
        self.fields@.map_values(|f: ArrowField| f@)
    }
}

} // verus!
