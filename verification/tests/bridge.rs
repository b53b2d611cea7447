use any_bridge::argument::{map_argument, map_arguments};
use any_bridge::error::BridgeError;
use any_bridge::ieee_bits::widen_real;
use any_bridge::types::{to_erased_kind, DataType, ErasedKind};
use any_bridge::value::{ConcreteValue, ErasedValue};

#[test]
fn type_bridge_maps_every_ordinary_type() {
    assert_eq!(to_erased_kind(DataType::Null), Ok(ErasedKind::Null));
    assert_eq!(to_erased_kind(DataType::Int), Ok(ErasedKind::Integer));
    assert_eq!(to_erased_kind(DataType::Int64), Ok(ErasedKind::BigInt));
    assert_eq!(to_erased_kind(DataType::Float), Ok(ErasedKind::Double));
    assert_eq!(to_erased_kind(DataType::Text), Ok(ErasedKind::Text));
    assert_eq!(to_erased_kind(DataType::Blob), Ok(ErasedKind::Blob));
}

#[test]
fn type_bridge_is_stable_across_calls() {
    let first = to_erased_kind(DataType::Int64);
    let second = to_erased_kind(DataType::Int64);
    assert_eq!(first, second);
}

#[test]
fn unsupported_type_is_reported_not_a_crash() {
    for t in [DataType::Numeric, DataType::Bool, DataType::Date, DataType::Time,
        DataType::Datetime]
    {
        match to_erased_kind(t) {
            Err(BridgeError::UnsupportedType(_)) => {},
            other => panic!("expected an unsupported-type error, got {:?}", other),
        }
    }
    assert_eq!(
        to_erased_kind(DataType::Date),
        Err(BridgeError::UnsupportedType(String::from("Date")))
    );
}

#[test]
fn argument_mapping_preserves_integers_and_buffers() {
    assert_eq!(map_argument(ErasedValue::Null), Ok(ConcreteValue::Null));
    assert_eq!(map_argument(ErasedValue::SmallInt(-7)), Ok(ConcreteValue::Int(-7)));
    assert_eq!(map_argument(ErasedValue::SmallInt(i16::MIN)), Ok(ConcreteValue::Int(-32768)));
    assert_eq!(map_argument(ErasedValue::Integer(i32::MAX)), Ok(ConcreteValue::Int(i32::MAX)));
    assert_eq!(map_argument(ErasedValue::BigInt(i64::MIN)), Ok(ConcreteValue::Int64(i64::MIN)));
    assert_eq!(
        map_argument(ErasedValue::Text(String::from("héllo"))),
        Ok(ConcreteValue::Text(String::from("héllo")))
    );
    assert_eq!(
        map_argument(ErasedValue::Blob(vec![0u8, 255, 7])),
        Ok(ConcreteValue::Blob(vec![0u8, 255, 7]))
    );
}

#[test]
fn argument_mapping_double_bits_pass_through() {
    let bits = (3.25f64).to_bits();
    assert_eq!(map_argument(ErasedValue::Double(bits)), Ok(ConcreteValue::Double(bits)));
}

#[test]
fn real_widening_agrees_with_the_hardware_cast() {
    let samples: [f32; 12] = [
        0.0,
        -0.0,
        1.0,
        -1.5,
        42.0,
        3.141592653589793f32,
        f32::MAX,
        f32::MIN_POSITIVE,
        f32::MIN_POSITIVE / 4.0, // subnormal
        f32::from_bits(1),       // smallest subnormal
        f32::INFINITY,
        f32::NEG_INFINITY,
    ];
    for s in samples {
        let expected = (s as f64).to_bits();
        assert_eq!(widen_real(s.to_bits()), expected, "widening {s}");
    }
    // A NaN stays a NaN (payloads are not portable across casts, so only
    // the class is compared).
    let nan_bits = (f32::NAN).to_bits();
    assert!(f64::from_bits(widen_real(nan_bits)).is_nan());
    assert!(f64::from_bits(widen_real(0x7fc0_0001u32)).is_nan());
}

#[test]
fn argument_mapping_widens_real_to_double() {
    let bits = (2.5f32).to_bits();
    assert_eq!(
        map_argument(ErasedValue::Real(bits)),
        Ok(ConcreteValue::Double((2.5f64).to_bits()))
    );
}

#[test]
fn unknown_argument_kind_is_a_catchable_error() {
    match map_argument(ErasedValue::Unknown(String::from("Bool"))) {
        Err(BridgeError::UnsupportedArgumentKind(tag)) => assert_eq!(tag, "Bool"),
        other => panic!("expected an unsupported-argument-kind error, got {:?}", other),
    }
}

#[test]
fn arguments_map_in_order() {
    let args = vec![
        ErasedValue::Integer(42),
        ErasedValue::Text(String::from("a")),
        ErasedValue::Null,
    ];
    let mapped = map_arguments(args).unwrap();
    assert_eq!(
        mapped.values,
        vec![
            ConcreteValue::Int(42),
            ConcreteValue::Text(String::from("a")),
            ConcreteValue::Null,
        ]
    );
}

#[test]
fn an_empty_argument_list_maps_to_an_empty_list() {
    let mapped = map_arguments(Vec::new()).unwrap();
    assert!(mapped.values.is_empty());
}

#[test]
fn arguments_fail_on_the_first_unknown_kind() {
    let args = vec![
        ErasedValue::Integer(1),
        ErasedValue::Unknown(String::from("Interval")),
        ErasedValue::Unknown(String::from("Point")),
    ];
    match map_arguments(args) {
        Err(BridgeError::UnsupportedArgumentKind(tag)) => assert_eq!(tag, "Interval"),
        other => panic!("expected an unsupported-argument-kind error, got {:?}", other),
    }
}
