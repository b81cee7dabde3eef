use neon_serde::de::from_value;
use neon_serde::decoded::Decoded;
use neon_serde::error::DecodeError;
use neon_serde::shape::{Shape, VariantKind, VariantSchema};
use neon_serde::value::Dyn;

fn num(x: f64) -> Dyn {
    Dyn::Num(x.to_bits())
}

fn status_schema() -> Shape {
    Shape::Enum(vec![
        VariantSchema { name: "Connected".to_string(), kind: VariantKind::Unit },
        VariantSchema {
            name: "Sized".to_string(),
            kind: VariantKind::Newtype(Box::new(Shape::Any)),
        },
        VariantSchema {
            name: "Point".to_string(),
            kind: VariantKind::Tuple(vec![Shape::Any, Shape::Any]),
        },
        VariantSchema { name: "Meta".to_string(), kind: VariantKind::Struct },
    ])
}

#[test]
fn unit_variant_from_bare_string() {
    let schema = status_schema();
    assert_eq!(
        from_value(&Dyn::Str("Connected".to_string()), &schema),
        Ok(Decoded::UnitVariant("Connected".to_string()))
    );
}

#[test]
fn unit_variant_tolerates_nullish_payload() {
    let schema = status_schema();
    let v = Dyn::Obj(vec![("Connected".to_string(), Dyn::Null)]);
    assert_eq!(from_value(&v, &schema), Ok(Decoded::UnitVariant("Connected".to_string())));
    let v2 = Dyn::Obj(vec![("Connected".to_string(), Dyn::Undefined)]);
    assert_eq!(from_value(&v2, &schema), Ok(Decoded::UnitVariant("Connected".to_string())));
    // A data-carrying payload where no data is expected is rejected.
    let v3 = Dyn::Obj(vec![("Connected".to_string(), Dyn::Bool(true))]);
    assert_eq!(
        from_value(&v3, &schema),
        Err(DecodeError::InvalidType {
            unexpected: "true".to_string(),
            expected: "unit".to_string(),
        })
    );
}

#[test]
fn newtype_variant_from_single_key_object() {
    let schema = status_schema();
    let v = Dyn::Obj(vec![("Sized".to_string(), num(42.0))]);
    assert_eq!(
        from_value(&v, &schema),
        Ok(Decoded::NewtypeVariant("Sized".to_string(), Box::new(Decoded::Int(42))))
    );
    // A bare string cannot carry newtype data.
    assert_eq!(
        from_value(&Dyn::Str("Sized".to_string()), &schema),
        Err(DecodeError::InvalidType {
            unexpected: "unit variant".to_string(),
            expected: "newtype variant".to_string(),
        })
    );
}

#[test]
fn tuple_variant_from_array_payload() {
    let schema = status_schema();
    let v = Dyn::Obj(vec![(
        "Point".to_string(),
        Dyn::Arr(vec![num(1.0), num(2.0)]),
    )]);
    assert_eq!(
        from_value(&v, &schema),
        Ok(Decoded::TupleVariant(
            "Point".to_string(),
            vec![Decoded::Int(1), Decoded::Int(2)],
        ))
    );
    // Not an array: the payload shape is rejected.
    let bad = Dyn::Obj(vec![("Point".to_string(), num(5.0))]);
    assert_eq!(
        from_value(&bad, &schema),
        Err(DecodeError::InvalidType {
            unexpected: "5".to_string(),
            expected: "tuple variant".to_string(),
        })
    );
    // Too few elements for the arity.
    let short = Dyn::Obj(vec![("Point".to_string(), Dyn::Arr(vec![num(1.0)]))]);
    assert_eq!(from_value(&short, &schema), Err(DecodeError::InvalidLength { need: 2, got: 1 }));
    // A bare string cannot carry tuple data.
    assert_eq!(
        from_value(&Dyn::Str("Point".to_string()), &schema),
        Err(DecodeError::InvalidType {
            unexpected: "unit variant".to_string(),
            expected: "tuple variant".to_string(),
        })
    );
}

#[test]
fn struct_variant_from_object_payload() {
    let schema = status_schema();
    let v = Dyn::Obj(vec![(
        "Meta".to_string(),
        Dyn::Obj(vec![
            ("x".to_string(), num(1.0)),
            ("y".to_string(), Dyn::Bool(false)),
        ]),
    )]);
    assert_eq!(
        from_value(&v, &schema),
        Ok(Decoded::StructVariant(
            "Meta".to_string(),
            vec![
                ("x".to_string(), Decoded::Int(1)),
                ("y".to_string(), Decoded::Bool(false)),
            ],
        ))
    );
    let bad = Dyn::Obj(vec![("Meta".to_string(), Dyn::Arr(vec![]))]);
    assert_eq!(
        from_value(&bad, &schema),
        Err(DecodeError::InvalidType {
            unexpected: "array".to_string(),
            expected: "struct variant".to_string(),
        })
    );
}

#[test]
fn two_keys_is_an_invalid_key() {
    let schema = status_schema();
    let v = Dyn::Obj(vec![
        ("A".to_string(), num(1.0)),
        ("B".to_string(), num(2.0)),
    ]);
    assert_eq!(
        from_value(&v, &schema),
        Err(DecodeError::InvalidKeyType { key: "object key with 2 properties".to_string() })
    );
    let empty = Dyn::Obj(vec![]);
    assert_eq!(
        from_value(&empty, &schema),
        Err(DecodeError::InvalidKeyType { key: "object key with 0 properties".to_string() })
    );
}

#[test]
fn non_string_non_object_is_an_invalid_key() {
    let schema = status_schema();
    assert_eq!(
        from_value(&num(3.0), &schema),
        Err(DecodeError::InvalidKeyType { key: "3".to_string() })
    );
    assert_eq!(
        from_value(&Dyn::Bool(true), &schema),
        Err(DecodeError::InvalidKeyType { key: "true".to_string() })
    );
    assert_eq!(
        from_value(&Dyn::Null, &schema),
        Err(DecodeError::InvalidKeyType { key: "null".to_string() })
    );
}

#[test]
fn unknown_variant_is_the_schemas_error() {
    let schema = status_schema();
    assert_eq!(
        from_value(&Dyn::Str("Missing".to_string()), &schema),
        Err(DecodeError::UnknownVariant { name: "Missing".to_string() })
    );
    let v = Dyn::Obj(vec![("Missing".to_string(), num(1.0))]);
    assert_eq!(
        from_value(&v, &schema),
        Err(DecodeError::UnknownVariant { name: "Missing".to_string() })
    );
}
