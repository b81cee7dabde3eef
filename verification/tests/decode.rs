use neon_serde::cursor::{ArrayAccess, ObjectAccess};
use neon_serde::de::{from_value, from_value_opt, Deserializer};
use neon_serde::decoded::Decoded;
use neon_serde::error::DecodeError;
use neon_serde::number::{classify, Number};
use neon_serde::shape::Shape;
use neon_serde::text::{i64_to_dec, u64_to_dec};
use neon_serde::value::Dyn;

fn num(x: f64) -> Dyn {
    Dyn::Num(x.to_bits())
}

#[test]
fn any_primitives_round_trip() {
    assert_eq!(from_value(&Dyn::Undefined, &Shape::Any), Ok(Decoded::Unit));
    assert_eq!(from_value(&Dyn::Null, &Shape::Any), Ok(Decoded::Unit));
    assert_eq!(from_value(&Dyn::Bool(true), &Shape::Any), Ok(Decoded::Bool(true)));
    assert_eq!(from_value(&Dyn::Bool(false), &Shape::Any), Ok(Decoded::Bool(false)));
    assert_eq!(
        from_value(&Dyn::Str("x".to_string()), &Shape::Any),
        Ok(Decoded::Str("x".to_string()))
    );
    assert_eq!(
        from_value(&Dyn::Bytes(vec![9, 8]), &Shape::Any),
        Ok(Decoded::Bytes(vec![9, 8]))
    );
}

#[test]
fn any_structures_round_trip() {
    let arr = Dyn::Arr(vec![num(1.0), Dyn::Bool(true), Dyn::Str("s".to_string())]);
    assert_eq!(
        from_value(&arr, &Shape::Any),
        Ok(Decoded::List(vec![
            Decoded::Int(1),
            Decoded::Bool(true),
            Decoded::Str("s".to_string()),
        ]))
    );
    let obj = Dyn::Obj(vec![
        ("a".to_string(), num(1.0)),
        ("b".to_string(), Dyn::Null),
    ]);
    assert_eq!(
        from_value(&obj, &Shape::Any),
        Ok(Decoded::Record(vec![
            ("a".to_string(), Decoded::Int(1)),
            ("b".to_string(), Decoded::Unit),
        ]))
    );
    let nested = Dyn::Arr(vec![Dyn::Arr(vec![num(2.5)])]);
    assert_eq!(
        from_value(&nested, &Shape::Any),
        Ok(Decoded::List(vec![Decoded::List(vec![Decoded::Float(2.5f64.to_bits())])]))
    );
}

#[test]
fn number_integer_float_boundary() {
    assert_eq!(from_value(&num(3.0), &Shape::Any), Ok(Decoded::Int(3)));
    assert_eq!(
        from_value(&num(3.5), &Shape::Any),
        Ok(Decoded::Float(3.5f64.to_bits()))
    );
    assert_eq!(from_value(&num(-0.0), &Shape::Any), Ok(Decoded::Int(0)));
    assert_eq!(from_value(&num(-3.0), &Shape::Any), Ok(Decoded::Int(-3)));
    assert_eq!(from_value(&num(0.0), &Shape::Any), Ok(Decoded::Int(0)));
}

#[test]
fn number_split_edges() {
    // Truncation equality holds of every value the cast saturates, too.
    assert_eq!(classify(f64::INFINITY.to_bits()), Number::Int(i64::MAX));
    assert_eq!(classify(f64::NEG_INFINITY.to_bits()), Number::Int(i64::MIN));
    assert_eq!(classify(1.0e300f64.to_bits()), Number::Int(i64::MAX));
    assert_eq!(classify((-1.0e300f64).to_bits()), Number::Int(i64::MIN));
    // NaN is not equal to its truncation; neither is a subnormal.
    assert_eq!(classify(f64::NAN.to_bits()), Number::Float(f64::NAN.to_bits()));
    assert_eq!(
        classify(f64::MIN_POSITIVE.to_bits()),
        Number::Float(f64::MIN_POSITIVE.to_bits())
    );
    assert_eq!(classify(5e-324f64.to_bits()), Number::Float(5e-324f64.to_bits()));
    assert_eq!(classify(0.5f64.to_bits()), Number::Float(0.5f64.to_bits()));
    // Exactly representable large integers survive the cast.
    let big = 9007199254740992.0f64;  // 2^53
    assert_eq!(classify(big.to_bits()), Number::Int(9007199254740992));
    assert_eq!(classify((-big).to_bits()), Number::Int(-9007199254740992));
    let exact = (i64::MIN as f64).to_bits();  // -2^63 is exactly representable
    assert_eq!(classify(exact), Number::Int(i64::MIN));
    // The reference behaviour of the host's truncating cast, bit for bit.
    for x in [
        3.0, 3.5, -0.0, 0.0, -3.0, 1.5e10, -1.7e8, 4503599627370496.0, 1.0e300, -1.0e300,
        f64::INFINITY, f64::NEG_INFINITY, 0.5, -0.25, 6.02e23, 1e-10,
    ] {
        let expect = if x.trunc() == x {
            Number::Int(x as i64)
        } else {
            Number::Float(x.to_bits())
        };
        assert_eq!(classify(x.to_bits()), expect, "for {x}");
    }
}

#[test]
fn bytes_owned_copy() {
    let buf = Dyn::Bytes(vec![0x01, 0x02, 0x03]);
    assert_eq!(from_value(&buf, &Shape::Bytes), Ok(Decoded::Bytes(vec![1, 2, 3])));
    let de = Deserializer::new(&buf);
    assert_eq!(de.deserialize_byte_buf(), Ok(Decoded::Bytes(vec![1, 2, 3])));
}

#[test]
fn bytes_from_non_buffer_not_implemented() {
    let r = from_value(&Dyn::Str("nope".to_string()), &Shape::Bytes);
    assert_eq!(
        r,
        Err(DecodeError::NotImplemented { name: "Deserializer::deserialize_bytes".to_string() })
    );
    let r2 = from_value(&num(7.0), &Shape::Bytes);
    assert!(matches!(r2, Err(DecodeError::NotImplemented { .. })));
}

#[test]
fn optional_nullish_is_missing() {
    let opt_any = Shape::Optional(Box::new(Shape::Any));
    assert_eq!(from_value(&Dyn::Undefined, &opt_any), Ok(Decoded::Missing));
    assert_eq!(from_value(&Dyn::Null, &opt_any), Ok(Decoded::Missing));
    assert_eq!(
        from_value(&Dyn::Bool(true), &opt_any),
        Ok(Decoded::Present(Box::new(Decoded::Bool(true))))
    );
    assert_eq!(
        from_value(&num(2.0), &opt_any),
        Ok(Decoded::Present(Box::new(Decoded::Int(2))))
    );
    // A failure of the inner expectation passes through unchanged.
    let opt_bytes = Shape::Optional(Box::new(Shape::Bytes));
    assert!(matches!(
        from_value(&Dyn::Bool(true), &opt_bytes),
        Err(DecodeError::NotImplemented { .. })
    ));
}

#[test]
fn absent_root_is_undefined() {
    assert_eq!(from_value_opt(None, &Shape::Any), from_value(&Dyn::Undefined, &Shape::Any));
    let opt_any = Shape::Optional(Box::new(Shape::Any));
    assert_eq!(from_value_opt(None, &opt_any), Ok(Decoded::Missing));
    let v = Dyn::Bool(false);
    assert_eq!(from_value_opt(Some(&v), &Shape::Any), Ok(Decoded::Bool(false)));
}

#[test]
fn ignore_always_succeeds() {
    assert_eq!(from_value(&Dyn::Bool(true), &Shape::Ignore), Ok(Decoded::Unit));
    assert_eq!(from_value(&Dyn::Bytes(vec![1]), &Shape::Ignore), Ok(Decoded::Unit));
    let de = Deserializer::new(&Dyn::Null);
    assert_eq!(de.deserialize_ignored_any(), Ok(Decoded::Unit));
}

#[test]
fn sequence_cursor_exhaustion() {
    let items = vec![num(1.0), num(2.0), num(3.0)];
    let mut cur = ArrayAccess::new(&items);
    assert_eq!(cur.next(), Some(&items[0]));
    assert_eq!(cur.next(), Some(&items[1]));
    assert_eq!(cur.next(), Some(&items[2]));
    assert_eq!(cur.next(), None);
    // Exhaustion is idempotent, never an error.
    assert_eq!(cur.next(), None);
    assert_eq!(cur.next(), None);
}

#[test]
fn map_cursor_key_value_pairing() {
    let entries = vec![
        ("a".to_string(), num(1.0)),
        ("b".to_string(), num(2.0)),
    ];
    let mut cur = ObjectAccess::new(&entries);
    // Keys come in own-key order, each key before its value.
    assert_eq!(cur.next_key(), Some(&"a".to_string()));
    assert_eq!(cur.next_value(), Ok(&entries[0].1));
    assert_eq!(cur.next_key(), Some(&"b".to_string()));
    assert_eq!(cur.next_value(), Ok(&entries[1].1));
    assert_eq!(cur.next_key(), None);
    // A value pull past the last entry reports index == length.
    assert_eq!(
        cur.next_value(),
        Err(DecodeError::ArrayIndexOutOfBounds { length: 2, index: 2 })
    );
    // On an empty object even the first value pull is out of bounds.
    let empty: Vec<(String, Dyn)> = vec![];
    let mut cur2 = ObjectAccess::new(&empty);
    assert_eq!(
        cur2.next_value(),
        Err(DecodeError::ArrayIndexOutOfBounds { length: 0, index: 0 })
    );
}

#[test]
fn decimal_rendering() {
    assert_eq!(u64_to_dec(0), "0");
    assert_eq!(u64_to_dec(7), "7");
    assert_eq!(u64_to_dec(1234567890), "1234567890");
    assert_eq!(i64_to_dec(-42), "-42");
    assert_eq!(i64_to_dec(i64::MIN), "-9223372036854775808");
    assert_eq!(i64_to_dec(i64::MAX), "9223372036854775807");
}

#[test]
fn describe_values() {
    assert_eq!(Dyn::Undefined.describe(), "undefined");
    assert_eq!(Dyn::Bool(true).describe(), "true");
    assert_eq!(num(3.0).describe(), "3");
    assert_eq!(num(-12.0).describe(), "-12");
    assert_eq!(num(2.5).describe(), "number");
    assert_eq!(Dyn::Str("hi".to_string()).describe(), "hi");
    assert_eq!(Dyn::Arr(vec![]).describe(), "array");
}
