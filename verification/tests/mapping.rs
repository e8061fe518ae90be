use kobold_arrow::{map_encoding, map_field, map_layout, ArrowType, CobolEncoding, CobolField, CobolLayout};

fn field(name: &str, enc: CobolEncoding) -> CobolField {
    CobolField { name: name.to_string(), encoding: enc }
}

#[test]
fn pic_x_maps_to_utf8() {
    // PIC X(10)
    let f = map_field(&field("name", CobolEncoding::Alphanumeric { len: 10 }));
    assert_eq!(f.data_type, ArrowType::Utf8);
    assert!(!f.nullable);
}

#[test]
fn scaled_packed_maps_to_decimal128() {
    // PIC S9(7)V99 COMP-3 -> Decimal128(precision: 7, scale: 2)
    let f = map_field(&field(
        "amount",
        CobolEncoding::Packed { digits: 7, scale: 2, signed: true },
    ));
    assert_eq!(f.data_type, ArrowType::Decimal128 { precision: 7, scale: 2 });
}

#[test]
fn scaled_display_maps_to_decimal128() {
    // PIC 9(5)V99 DISPLAY -> Decimal128(precision: 5, scale: 2)
    let f = map_field(&field(
        "rate",
        CobolEncoding::DisplayNumeric { digits: 5, scale: 2, signed: false },
    ));
    assert_eq!(f.data_type, ArrowType::Decimal128 { precision: 5, scale: 2 });
}

#[test]
fn small_integer_maps_to_int32() {
    // PIC 9(5) -> Int32
    let f = map_field(&field(
        "qty",
        CobolEncoding::DisplayNumeric { digits: 5, scale: 0, signed: false },
    ));
    assert_eq!(f.data_type, ArrowType::Int32);
}

#[test]
fn boundary_nine_digits_is_int32() {
    // PIC 9(9) -> Int32 (boundary)
    let t = map_encoding(&CobolEncoding::DisplayNumeric { digits: 9, scale: 0, signed: false });
    assert_eq!(t, ArrowType::Int32);
}

#[test]
fn ten_digits_is_int64() {
    // PIC 9(10) -> Int64
    let t = map_encoding(&CobolEncoding::DisplayNumeric { digits: 10, scale: 0, signed: false });
    assert_eq!(t, ArrowType::Int64);
}

#[test]
fn large_integer_maps_to_int64() {
    // PIC 9(15) -> Int64
    let f = map_field(&field(
        "big",
        CobolEncoding::DisplayNumeric { digits: 15, scale: 0, signed: false },
    ));
    assert_eq!(f.data_type, ArrowType::Int64);
}

#[test]
fn eighteen_digits_is_int64_nineteen_is_decimal() {
    assert_eq!(
        map_encoding(&CobolEncoding::Packed { digits: 18, scale: 0, signed: true }),
        ArrowType::Int64
    );
    // 19 digits overflows i64 range -> Decimal128(scale 0)
    assert_eq!(
        map_encoding(&CobolEncoding::Packed { digits: 19, scale: 0, signed: true }),
        ArrowType::Decimal128 { precision: 19, scale: 0 }
    );
}

#[test]
fn binary_width_selects_int_width() {
    // COMP halfword (2 bytes) -> Int32; fullword (4) -> Int32; doubleword (8) -> Int64
    assert_eq!(
        map_encoding(&CobolEncoding::Binary { bytes: 2, signed: true }),
        ArrowType::Int32
    );
    assert_eq!(
        map_encoding(&CobolEncoding::Binary { bytes: 4, signed: true }),
        ArrowType::Int32
    );
    assert_eq!(
        map_encoding(&CobolEncoding::Binary { bytes: 8, signed: false }),
        ArrowType::Int64
    );
}

#[test]
fn float_and_double_map_to_arrow_floats() {
    assert_eq!(map_encoding(&CobolEncoding::Float), ArrowType::Float32);
    assert_eq!(map_encoding(&CobolEncoding::Double), ArrowType::Float64);
}

#[test]
fn full_layout_maps_every_field() {
    let layout = CobolLayout {
        name: "CUSTOMER-RECORD".to_string(),
        fields: vec![
            field("cust-name", CobolEncoding::Alphanumeric { len: 30 }),
            field("cust-id", CobolEncoding::DisplayNumeric { digits: 5, scale: 0, signed: false }),
            field("balance", CobolEncoding::Packed { digits: 9, scale: 2, signed: true }),
            field("seq", CobolEncoding::Binary { bytes: 4, signed: false }),
            field("ratio", CobolEncoding::Double),
        ],
    };
    let schema = map_layout(&layout);
    assert_eq!(schema.fields.len(), 5);
    assert_eq!(schema.fields[0].data_type, ArrowType::Utf8);
    assert_eq!(schema.fields[1].data_type, ArrowType::Int32);
    assert_eq!(
        schema.fields[2].data_type,
        ArrowType::Decimal128 { precision: 9, scale: 2 }
    );
    assert_eq!(schema.fields[3].data_type, ArrowType::Int32);
    assert_eq!(schema.fields[4].data_type, ArrowType::Float64);
    assert!(schema.fields.iter().all(|f| !f.nullable));
}
