use builtin_pricing::{Builtin, DecodeError, Expected, Field, PathSegment, PricingAt, Value};

fn text(s: &str) -> Value {
    Value::Text(s.to_string())
}

fn object(pairs: Vec<(&str, Value)>) -> Value {
    Value::Object(pairs.into_iter().map(|(k, v)| (k.to_string(), v)).collect())
}

fn priced(price: u64, at: u64) -> Value {
    object(vec![("price", Value::UInt(price)), ("at", Value::UInt(at))])
}

fn builtin_fields() -> Vec<Field> {
    vec![Field::Name, Field::Pricing, Field::At]
}

#[test]
fn deserialize_empty_vec() {
    let raw = object(vec![
        ("name", text("foo")),
        ("pricing", Value::Array(vec![])),
        ("at", Value::UInt(1)),
    ]);
    let builtin: Builtin = Builtin::deserialize(&raw).unwrap();
    assert_eq!(builtin.name, "foo".to_string());
    assert!(builtin.pricing.is_empty());
    assert_eq!(builtin.at, 1);
}

#[test]
fn deserialize_vec() {
    let raw = object(vec![
        ("name", text("bar")),
        ("pricing", Value::Array(vec![priced(100, 0), priced(0, 11)])),
        ("at", Value::UInt(0)),
    ]);
    let builtin: Builtin = Builtin::deserialize(&raw).unwrap();
    assert_eq!(builtin.name, "bar".to_string());
    assert_eq!(
        builtin.pricing,
        vec![PricingAt { price: 100, at: 0 }, PricingAt { price: 0, at: 11 }]
    );
    assert_eq!(builtin.at, 0);
}

#[test]
fn bare_pricing_object_rejected() {
    let raw = object(vec![
        ("name", text("foo")),
        ("pricing", object(vec![("price", Value::UInt(1000))])),
        ("at", Value::UInt(999)),
    ]);
    assert_eq!(
        Builtin::deserialize(&raw),
        Err(DecodeError::ShapeMismatch {
            path: vec![PathSegment::Field(Field::Pricing)],
            expected: Expected::Sequence,
        })
    );
}

#[test]
fn round_trip_keeps_order() {
    let b = Builtin {
        name: "baz".to_string(),
        pricing: vec![
            PricingAt { price: 7, at: 30 },
            PricingAt { price: 7, at: 30 },
            PricingAt { price: u64::MAX, at: 1 },
            PricingAt { price: 0, at: 0 },
        ],
        at: 12345,
    };
    assert_eq!(Builtin::deserialize(&b.to_value()), Ok(b));
}

#[test]
fn round_trip_empty_pricing() {
    let b = Builtin { name: String::new(), pricing: vec![], at: u64::MAX };
    assert_eq!(Builtin::deserialize(&b.to_value()), Ok(b));
}

#[test]
fn pricing_at_round_trip() {
    let p = PricingAt { price: 100, at: 11 };
    let v = p.to_value();
    assert_eq!(v, priced(100, 11));
    assert_eq!(PricingAt::deserialize(&v), Ok(p));
}

#[test]
fn duplicate_name_with_equal_values() {
    let raw = object(vec![
        ("name", text("foo")),
        ("name", text("foo")),
        ("pricing", Value::Array(vec![])),
        ("at", Value::UInt(1)),
    ]);
    assert_eq!(
        Builtin::deserialize(&raw),
        Err(DecodeError::DuplicateField { field: Field::Name })
    );
}

#[test]
fn duplicate_at_with_other_value() {
    let raw = object(vec![
        ("at", Value::UInt(1)),
        ("name", text("foo")),
        ("pricing", Value::Array(vec![])),
        ("at", text("not even a number")),
    ]);
    assert_eq!(
        Builtin::deserialize(&raw),
        Err(DecodeError::DuplicateField { field: Field::At })
    );
}

#[test]
fn duplicate_pricing() {
    let raw = object(vec![
        ("pricing", Value::Array(vec![])),
        ("pricing", Value::Array(vec![priced(1, 2)])),
    ]);
    assert_eq!(
        Builtin::deserialize(&raw),
        Err(DecodeError::DuplicateField { field: Field::Pricing })
    );
}

#[test]
fn missing_each_field() {
    let fields = [Field::Name, Field::Pricing, Field::At];
    for k in 0..3 {
        let mut pairs = vec![
            ("name", text("foo")),
            ("pricing", Value::Array(vec![priced(1, 2)])),
            ("at", Value::UInt(1)),
        ];
        pairs.remove(k);
        assert_eq!(
            Builtin::deserialize(&object(pairs)),
            Err(DecodeError::MissingField { field: fields[k] })
        );
    }
}

#[test]
fn missing_all_reports_name_first() {
    assert_eq!(
        Builtin::deserialize(&object(vec![])),
        Err(DecodeError::MissingField { field: Field::Name })
    );
}

#[test]
fn unknown_field_rejected() {
    let raw = object(vec![
        ("name", text("foo")),
        ("pricing", Value::Array(vec![])),
        ("extra", Value::Null),
        ("at", Value::UInt(1)),
    ]);
    assert_eq!(
        Builtin::deserialize(&raw),
        Err(DecodeError::UnknownField { key: "extra".to_string(), accepted: builtin_fields() })
    );
}

#[test]
fn field_names_are_case_sensitive() {
    let raw = object(vec![
        ("Name", text("foo")),
        ("pricing", Value::Array(vec![])),
        ("at", Value::UInt(1)),
    ]);
    assert_eq!(
        Builtin::deserialize(&raw),
        Err(DecodeError::UnknownField { key: "Name".to_string(), accepted: builtin_fields() })
    );
}

#[test]
fn first_error_in_input_order_wins() {
    let raw = object(vec![
        ("bogus", Value::Bool(true)),
        ("name", text("foo")),
        ("name", text("foo")),
    ]);
    assert_eq!(
        Builtin::deserialize(&raw),
        Err(DecodeError::UnknownField { key: "bogus".to_string(), accepted: builtin_fields() })
    );
    let raw = object(vec![
        ("name", Value::UInt(3)),
        ("extra", Value::Null),
    ]);
    assert_eq!(
        Builtin::deserialize(&raw),
        Err(DecodeError::ShapeMismatch {
            path: vec![PathSegment::Field(Field::Name)],
            expected: Expected::Text,
        })
    );
}

#[test]
fn document_must_be_a_map() {
    assert_eq!(
        Builtin::deserialize(&Value::Array(vec![])),
        Err(DecodeError::ShapeMismatch { path: vec![], expected: Expected::Object })
    );
    assert_eq!(
        PricingAt::deserialize(&Value::UInt(4)),
        Err(DecodeError::ShapeMismatch { path: vec![], expected: Expected::Object })
    );
}

#[test]
fn at_must_be_unsigned() {
    let raw = object(vec![
        ("name", text("foo")),
        ("pricing", Value::Array(vec![])),
        ("at", Value::Int(-1)),
    ]);
    assert_eq!(
        Builtin::deserialize(&raw),
        Err(DecodeError::ShapeMismatch {
            path: vec![PathSegment::Field(Field::At)],
            expected: Expected::Unsigned,
        })
    );
}

#[test]
fn non_negative_signed_integers_are_accepted() {
    let raw = object(vec![
        ("name", text("foo")),
        ("pricing", Value::Array(vec![object(vec![("at", Value::Int(3)), ("price", Value::Int(0))])])),
        ("at", Value::Int(5)),
    ]);
    let b = Builtin::deserialize(&raw).unwrap();
    assert_eq!(b.at, 5);
    assert_eq!(b.pricing, vec![PricingAt { price: 0, at: 3 }]);
}

#[test]
fn nested_shape_mismatch_carries_path() {
    let raw = object(vec![
        ("name", text("foo")),
        (
            "pricing",
            Value::Array(vec![priced(1, 1), object(vec![("price", text("10")), ("at", Value::UInt(2))])]),
        ),
        ("at", Value::UInt(1)),
    ]);
    assert_eq!(
        Builtin::deserialize(&raw),
        Err(DecodeError::ShapeMismatch {
            path: vec![
                PathSegment::Field(Field::Pricing),
                PathSegment::Index(1),
                PathSegment::Field(Field::Price),
            ],
            expected: Expected::Unsigned,
        })
    );
}

#[test]
fn pricing_element_must_be_a_map() {
    let raw = object(vec![
        ("name", text("foo")),
        ("pricing", Value::Array(vec![Value::UInt(1)])),
        ("at", Value::UInt(1)),
    ]);
    assert_eq!(
        Builtin::deserialize(&raw),
        Err(DecodeError::ShapeMismatch {
            path: vec![PathSegment::Field(Field::Pricing), PathSegment::Index(0)],
            expected: Expected::Object,
        })
    );
}

#[test]
fn pricing_element_field_discipline() {
    let missing = object(vec![("price", Value::UInt(1))]);
    assert_eq!(
        PricingAt::deserialize(&missing),
        Err(DecodeError::MissingField { field: Field::At })
    );
    let duplicate = object(vec![
        ("price", Value::UInt(1)),
        ("price", Value::UInt(1)),
        ("at", Value::UInt(1)),
    ]);
    assert_eq!(
        PricingAt::deserialize(&duplicate),
        Err(DecodeError::DuplicateField { field: Field::Price })
    );
    let unknown = object(vec![
        ("price", Value::UInt(1)),
        ("at", Value::UInt(1)),
        ("currency", text("EUR")),
    ]);
    assert_eq!(
        PricingAt::deserialize(&unknown),
        Err(DecodeError::UnknownField {
            key: "currency".to_string(),
            accepted: vec![Field::Price, Field::At],
        })
    );
    let raw = object(vec![
        ("name", text("foo")),
        ("pricing", Value::Array(vec![missing])),
        ("at", Value::UInt(1)),
    ]);
    assert_eq!(
        Builtin::deserialize(&raw),
        Err(DecodeError::MissingField { field: Field::At })
    );
}

#[test]
fn nesting_an_error_prefixes_only_paths() {
    let e = DecodeError::ShapeMismatch {
        path: vec![PathSegment::Field(Field::At)],
        expected: Expected::Unsigned,
    };
    assert_eq!(
        e.nested_under(PathSegment::Index(4)),
        DecodeError::ShapeMismatch {
            path: vec![PathSegment::Index(4), PathSegment::Field(Field::At)],
            expected: Expected::Unsigned,
        }
    );
    let d = DecodeError::DuplicateField { field: Field::Price };
    assert_eq!(d.clone().nested_under(PathSegment::Index(4)), d);
}

#[test]
fn field_and_shape_texts() {
    assert_eq!(Field::Name.name(), "name");
    assert_eq!(Field::Pricing.name(), "pricing");
    assert_eq!(Field::At.name(), "at");
    assert_eq!(Field::Price.name(), "price");
    assert_eq!(Expected::Sequence.describe(), "a sequence");
    assert_eq!(Expected::Unsigned.describe(), "an unsigned integer");
}

#[test]
fn unsigned_reading() {
    assert_eq!(Value::UInt(9).as_unsigned(), Some(9));
    assert_eq!(Value::Int(9).as_unsigned(), Some(9));
    assert_eq!(Value::Int(-9).as_unsigned(), None);
    assert_eq!(Value::Null.as_unsigned(), None);
}
