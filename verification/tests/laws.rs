use std::collections::{BTreeMap, HashMap};

use stargate_grpc::error::ConversionErrorKind;
use stargate_grpc::proto::value::Inner;
use stargate_grpc::proto::{Decimal, Inet, Uuid, Varint};
use stargate_grpc::types::{Any, Date, Int, List, MapOf, SetOf, Smallint, Text, Time, Tinyint};
use stargate_grpc::{Float32, Float64, KeyValue, TryFromValue, Value};

fn elements(value: &Value) -> &Vec<Value> {
    match &value.inner {
        Some(Inner::Collection(c)) => &c.elements,
        inner => panic!("Unexpected inner value {:?}", inner),
    }
}

#[test]
fn scalars_come_back() {
    assert_eq!(Value::from(true).try_into::<bool>().unwrap(), true);
    assert_eq!(Value::from(i64::MIN).try_into::<i64>().unwrap(), i64::MIN);
    assert_eq!(Value::from(i32::MAX).try_into::<i32>().unwrap(), i32::MAX);
    assert_eq!(Value::from(-7i16).try_into::<i16>().unwrap(), -7);
    assert_eq!(Value::from(-128i8).try_into::<i8>().unwrap(), -128);
    assert_eq!(Value::from(65535u16).try_into::<u16>().unwrap(), 65535);
    assert_eq!(Value::of_type(Date, 18740u32).try_into::<u32>().unwrap(), 18740);
    assert_eq!(Value::of_type(Time, u64::MAX).try_into::<u64>().unwrap(), u64::MAX);
    assert_eq!(Value::of_type(Smallint, -3i16).try_into::<i16>().unwrap(), -3);
    assert_eq!(Value::of_type(Tinyint, 5i8).try_into::<i8>().unwrap(), 5);
    assert_eq!(
        Value::from("Zardzewiała".to_string()).try_into::<String>().unwrap(),
        "Zardzewiała"
    );
    assert_eq!(Value::from(vec![0u8, 255]).try_into::<Vec<u8>>().unwrap(), vec![0, 255]);
    let float = Float32::from_bits(1.5f32.to_bits());
    assert_eq!(Value::from(float).try_into::<Float32>().unwrap(), float);
    let double = Float64::from_bits((-0.25f64).to_bits());
    assert_eq!(Value::from(double).try_into::<Float64>().unwrap(), double);
}

#[test]
fn wrapper_records_come_back() {
    let uuid = Uuid { value: vec![7; 16] };
    assert_eq!(Value::from(uuid.clone()).try_into::<Uuid>().unwrap(), uuid);
    let inet = Inet { value: vec![10, 0, 0, 1] };
    assert_eq!(Value::from(inet.clone()).try_into::<Inet>().unwrap(), inet);
    let varint = Varint { value: vec![1, 0] };
    assert_eq!(Value::from(varint.clone()).try_into::<Varint>().unwrap(), varint);
    let decimal = Decimal { scale: 3, value: vec![9] };
    assert_eq!(Value::from(decimal.clone()).try_into::<Decimal>().unwrap(), decimal);
    let bytes = [3u8; 16];
    assert_eq!(Value::uuid(&bytes).try_into::<[u8; 16]>().unwrap(), bytes);
}

#[test]
fn nested_collections_come_back() {
    let nested: Vec<Vec<Option<i64>>> = vec![vec![Some(1), None], vec![], vec![Some(3)]];
    let value = Value::from(nested.clone());
    assert_eq!(value.try_into::<Vec<Vec<Option<i64>>>>().unwrap(), nested);

    let map = vec![
        KeyValue("a".to_string(), vec![(1i64, true), (2i64, false)]),
        KeyValue("b".to_string(), vec![]),
    ];
    let value = Value::from(map.clone());
    assert_eq!(
        value.try_into::<Vec<KeyValue<String, Vec<(i64, bool)>>>>().unwrap(),
        map
    );

    let set = Value::of_type(SetOf(Int), vec![3, 1, 2]);
    assert_eq!(set.try_into::<Vec<i64>>().unwrap(), vec![3, 1, 2]);
}

#[test]
fn tuples_of_every_size_come_back() {
    let pair = (1i64, "a".to_string());
    assert_eq!(Value::from(pair.clone()).try_into::<(i64, String)>().unwrap(), pair);
    let sixteen = (
        1i64, 2i64, 3i64, 4i64, 5i64, 6i64, 7i64, 8i64, 9i64, 10i64, 11i64, 12i64, 13i64, 14i64,
        15i64, true,
    );
    let value = Value::from(sixteen);
    assert_eq!(elements(&value).len(), 16);
    assert_eq!(elements(&value)[15], Value::boolean(true));
    let back: (
        i64, i64, i64, i64, i64, i64, i64, i64, i64, i64, i64, i64, i64, i64, i64, bool,
    ) = value.try_into().unwrap();
    assert_eq!(back.0, 1);
    assert_eq!(back.7, 8);
    assert_eq!(back.14, 15);
    assert_eq!(back.15, true);
}

#[test]
fn tuple_components_keep_their_order() {
    let value = Value::of_type((Text, Int, Date), ("x", 2, 3));
    assert_eq!(
        elements(&value),
        &vec![Value::string("x"), Value::bigint(2), Value::date(3)]
    );
}

#[test]
fn end_to_end_tuple() {
    let value = Value::from((1i64, "October"));
    let (number, month): (i64, String) = value.try_into().unwrap();
    assert_eq!((number, month.as_str()), (1, "October"));
}

#[test]
fn null_and_unset_are_none() {
    assert_eq!(Value::null().try_into::<Option<i64>>().unwrap(), None);
    assert_eq!(Value::unset().try_into::<Option<i64>>().unwrap(), None);
    assert_eq!(Value { inner: None }.try_into::<Option<String>>().unwrap(), None);
    assert_eq!(Value::null().try_into::<Option<Vec<i64>>>().unwrap(), None);
    assert_eq!(Value::unset().try_into::<Option<(i64, i64)>>().unwrap(), None);
    assert_eq!(Value::bigint(5).try_into::<Option<i64>>().unwrap(), Some(5));
}

fn is_incompatible<T: TryFromValue>(value: Value) -> bool {
    match T::try_from(value) {
        Err(e) => e.kind == ConversionErrorKind::Incompatible,
        Ok(_) => false,
    }
}

#[test]
fn null_and_unset_are_incompatible_with_what_is_no_option() {
    assert!(is_incompatible::<i64>(Value::null()));
    assert!(is_incompatible::<i64>(Value::unset()));
    assert!(is_incompatible::<i64>(Value { inner: None }));
    assert!(is_incompatible::<bool>(Value::null()));
    assert!(is_incompatible::<String>(Value::unset()));
    assert!(is_incompatible::<Vec<u8>>(Value::null()));
    assert!(is_incompatible::<Vec<i64>>(Value::null()));
    assert!(is_incompatible::<Vec<KeyValue<i64, i64>>>(Value::unset()));
    assert!(is_incompatible::<(i64, i64)>(Value::null()));
    assert!(is_incompatible::<[u8; 16]>(Value::null()));
    assert!(is_incompatible::<Uuid>(Value::null()));
}

#[test]
fn a_value_converts_to_itself() {
    assert_eq!(Value::null().try_into::<Value>().unwrap(), Value::null());
    assert_eq!(
        Value::list(vec![Value::null(), Value::bigint(1)]).try_into::<Vec<Value>>().unwrap(),
        vec![Value::null(), Value::bigint(1)]
    );
}

#[test]
fn some_of_null_does_not_come_back() {
    let nested: Option<Option<i64>> = Some(None);
    let value = Value::of_type(Int, nested);
    assert_eq!(value, Value::null());
    assert_eq!(value.try_into::<Option<Option<i64>>>().unwrap(), None);
}

#[test]
fn precision_is_never_changed() {
    let double = Value::double(Float64::from_bits(3.5f64.to_bits()));
    assert!(is_incompatible::<Float32>(double));
    let float = Value::float(Float32::from_bits(3.5f32.to_bits()));
    assert!(is_incompatible::<Float64>(float));
}

#[test]
fn integers_that_do_not_fit_are_out_of_range() {
    let kind = |r: Result<i32, _>| -> ConversionErrorKind {
        let e: stargate_grpc::error::ConversionError = r.err().unwrap();
        e.kind
    };
    assert_eq!(
        kind(Value::bigint(i32::MAX as i64 + 1).try_into::<i32>()),
        ConversionErrorKind::OutOfRange
    );
    assert_eq!(
        kind(Value::bigint(i32::MIN as i64 - 1).try_into::<i32>()),
        ConversionErrorKind::OutOfRange
    );
    assert_eq!(Value::bigint(i32::MIN as i64).try_into::<i32>().unwrap(), i32::MIN);
    assert_eq!(
        Value::bigint(-1).try_into::<u16>().err().unwrap().kind,
        ConversionErrorKind::OutOfRange
    );
    assert_eq!(
        Value::bigint(128).try_into::<i8>().err().unwrap().kind,
        ConversionErrorKind::OutOfRange
    );
    assert_eq!(
        Value::bigint(-32769).try_into::<i16>().err().unwrap().kind,
        ConversionErrorKind::OutOfRange
    );
}

#[test]
fn uuid_of_another_length_is_out_of_range() {
    let value = Value::from(Uuid { value: vec![1; 15] });
    assert_eq!(
        value.try_into::<[u8; 16]>().err().unwrap().kind,
        ConversionErrorKind::OutOfRange
    );
}

#[test]
fn map_of_two_entries_is_four_items() {
    let map = vec![KeyValue(1, "one"), KeyValue(2, "two")];
    let value = Value::of_type(MapOf(Int, Text), map);
    assert_eq!(
        elements(&value),
        &vec![
            Value::bigint(1),
            Value::string("one"),
            Value::bigint(2),
            Value::string("two")
        ]
    );
    let keyed_by_time = Value::map_of(Time, Any, vec![(1u64, Value::bigint(1))]);
    assert_eq!(elements(&keyed_by_time), &vec![Value::time(1), Value::bigint(1)]);
}

#[test]
fn collection_of_odd_length_is_no_map() {
    let value = Value::list(vec![1, 2, 3]);
    assert!(is_incompatible::<Vec<KeyValue<i64, i64>>>(value.clone()));
    assert!(is_incompatible::<HashMap<i64, i64>>(value.clone()));
    assert!(is_incompatible::<BTreeMap<i64, i64>>(value));
}

#[test]
fn ordered_map_of_two_entries_is_four_items() {
    let mut map = BTreeMap::new();
    map.insert(2, "two");
    map.insert(1, "one");
    let value = Value::from_btree_map(Int, Text, map);
    assert_eq!(
        elements(&value),
        &vec![
            Value::bigint(1),
            Value::string("one"),
            Value::bigint(2),
            Value::string("two")
        ]
    );
    let back: BTreeMap<i64, String> = value.try_into().unwrap();
    assert_eq!(back.len(), 2);
    assert_eq!(back[&1], "one");
    assert_eq!(back[&2], "two");
}

#[test]
fn hash_map_holds_every_entry_once() {
    let mut map = HashMap::new();
    map.insert("a".to_string(), 1i64);
    map.insert("b".to_string(), 2i64);
    map.insert("c".to_string(), 3i64);
    let value = Value::from_hash_map(Text, Int, map.clone());
    assert_eq!(elements(&value).len(), 6);
    let back: HashMap<String, i64> = value.try_into().unwrap();
    assert_eq!(back, map);
}

#[test]
fn later_entry_of_a_key_stays_in_a_map() {
    let value = Value::list(vec![1, 10, 2, 20, 1, 30]);
    let map: HashMap<i64, i64> = value.clone().try_into().unwrap();
    assert_eq!(map.len(), 2);
    assert_eq!(map[&1], 30);
    let map: BTreeMap<i64, i64> = value.try_into().unwrap();
    assert_eq!(map.into_iter().collect::<Vec<_>>(), vec![(1, 30), (2, 20)]);
}

#[test]
fn map_fails_as_its_first_failing_item_does() {
    let value = Value::list(vec![
        Value::bigint(1),
        Value::string("one"),
        Value::string("two"),
        Value::bigint(1i64 << 40),
    ]);
    assert!(is_incompatible::<Vec<KeyValue<i64, String>>>(value.clone()));
    let result = value.clone().try_into::<Vec<KeyValue<Value, Value>>>().unwrap();
    assert_eq!(result.len(), 2);
    let value = Value::list(vec![Value::bigint(1i64 << 40), Value::bigint(2)]);
    assert_eq!(
        value.try_into::<Vec<KeyValue<i32, String>>>().err().unwrap().kind,
        ConversionErrorKind::OutOfRange
    );
}

#[test]
fn list_fails_as_its_first_failing_item_does() {
    let value = Value::list(vec![Value::bigint(1), Value::bigint(1i64 << 40), Value::string("x")]);
    assert_eq!(
        value.try_into::<Vec<i32>>().err().unwrap().kind,
        ConversionErrorKind::OutOfRange
    );
    assert!(is_incompatible::<Vec<i64>>(Value::bigint(1)));
}

#[test]
fn tuple_of_wrong_size_is_a_wrong_number_of_items() {
    let value = Value::list(vec![1, 2]);
    assert_eq!(
        value.try_into::<(i64, i64, i64, i64)>().err().unwrap().kind,
        ConversionErrorKind::WrongNumberOfItems { actual: 2, expected: 4 }
    );
    let value = Value::list(vec![1, 2, 3]);
    assert_eq!(
        value.try_into::<(i64, i64)>().err().unwrap().kind,
        ConversionErrorKind::WrongNumberOfItems { actual: 3, expected: 2 }
    );
    let value = Value::list(vec![Value::bigint(1), Value::string("x")]);
    assert!(is_incompatible::<(i64, i64)>(value));
}

#[test]
fn list_of_typed_items() {
    assert_eq!(
        Value::list_of(Time, vec![1, 2]),
        Value::list(vec![Value::time(1), Value::time(2)])
    );
    assert_eq!(
        Value::of_type(List(Date), vec![Some(1), None]),
        Value::list(vec![Value::date(1), Value::null()])
    );
}

#[test]
fn cloned_value_equals_its_source() {
    let value = Value::list(vec![
        Value::udt(vec![("a", Value::list(vec![1, 2])), ("b", Value::null())]),
        Value::raw_decimal(1, vec![2]),
        Value::string("x"),
    ]);
    assert_eq!(value.clone(), value);
}

#[test]
fn taken_value_leaves_no_variant() {
    let mut value = Value::bigint(1);
    assert_eq!(value.take(), Value::bigint(1));
    assert_eq!(value.inner, None);
}

#[test]
fn details_of_bits() {
    assert_eq!(Float32::from_bits(7).to_bits(), 7);
    assert_eq!(Float64::from_bits(9).to_bits(), 9);
    assert_eq!(KeyValue(1, "a").into_tuple(), (1, "a"));
}
