use std::collections::{BTreeMap, HashMap};
use std::time::{SystemTime, UNIX_EPOCH};

use stargate_grpc::proto::value::Inner;
use stargate_grpc::proto::{Decimal, Inet, UdtValue, Uuid, Varint};
use stargate_grpc::types::{Any, Date, Int, List, MapOf, Text, Time};
use stargate_grpc::{Float32, Float64, KeyValue, Value};

#[test]
fn convert_value_into_value() {
    let v: Value = Value::bigint(1).into();
    assert_eq!(v, Value::bigint(1));
}

#[test]
fn convert_i64_into_any_using_of_type() {
    let v: Value = Value::of_type(Any, 1);
    assert_eq!(v, Value::bigint(1));
}

#[test]
fn convert_value_into_any_using_of_type() {
    let v: Value = Value::of_type(Any, Value::bigint(1));
    assert_eq!(v, Value::bigint(1))
}

#[test]
fn convert_i64_into_value() {
    let v: Value = 100.into();
    assert_eq!(v, Value::bigint(100));
}

#[test]
fn convert_float_into_value() {
    let v: Value = Float32::from_bits(100.0f32.to_bits()).into();
    assert_eq!(v, Value::float(Float32::from_bits(100.0f32.to_bits())));
    assert_eq!(v.inner, Some(Inner::Float(Float32(100.0f32.to_bits()))));
}

#[test]
fn convert_double_into_value() {
    let v: Value = Float64::from_bits(100.0f64.to_bits()).into();
    assert_eq!(v, Value::double(Float64::from_bits(100.0f64.to_bits())));
    assert_eq!(v.inner, Some(Inner::Double(Float64(100.0f64.to_bits()))));
}

#[test]
fn convert_string_into_value() {
    let v: Value = "foo".into();
    assert_eq!(v, Value::string("foo"));

    let v: Value = "foo".to_string().into();
    assert_eq!(v, Value::string("foo"));
}

#[test]
fn convert_vector_into_bytes_value() {
    let buf: Vec<u8> = vec![1, 2];
    let v = Value::from(buf);
    assert_eq!(v, Value::bytes(vec![1, 2]))
}

#[test]
fn convert_uuid_into_value() {
    let uuid = Uuid { value: vec![1; 16] };
    let v = Value::from(uuid);
    assert_eq!(v, Value::uuid(&[1; 16]))
}

#[test]
fn convert_uuid_uuid_into_value() {
    let uuid = uuid::Uuid::new_v4();
    let v1 = Value::from(Uuid { value: uuid.as_bytes().to_vec() });
    let v2 = Value::uuid(uuid.as_bytes());
    assert_eq!(v1, v2)
}

#[test]
fn convert_inet_into_value() {
    let inet = Inet { value: vec![127, 0, 0, 1] };
    let v = Value::from(inet);
    assert_eq!(v, Value::inet(&[127, 0, 0, 1]))
}

#[test]
fn convert_decimal_into_value() {
    let decimal = Decimal { scale: 2, value: vec![10, 0] };
    let v = Value::from(decimal);
    assert_eq!(v, Value::raw_decimal(2, vec![10, 0]))
}

#[test]
fn convert_varint_into_value() {
    let varint = Varint { value: vec![10, 0] };
    let v = Value::from(varint);
    assert_eq!(v, Value::varint(vec![10, 0]))
}

#[test]
fn convert_system_time_into_value() {
    let time = SystemTime::now();
    let millis = time.duration_since(UNIX_EPOCH).unwrap().as_millis();
    let unix_time = millis as i64;
    let value1 = Value::from(stargate_grpc::time::timestamp_of(millis).unwrap());
    assert_eq!(value1, Value::bigint(unix_time));
    let value2 = Value::bigint(stargate_grpc::time::timestamp_of(millis).unwrap());
    assert_eq!(value2, Value::bigint(unix_time));
}

#[test]
fn convert_tuple_into_default_value() {
    let tuple = (1, "foo");
    let v = Value::from(tuple);
    assert_eq!(v, Value::list(vec![Value::bigint(1), Value::string("foo")]))
}

#[test]
fn convert_tuple_into_list_value_using_of_type() {
    let tuple = (1, "foo");
    let v = Value::of_type(List(Any), tuple);
    assert_eq!(v, Value::list(vec![Value::bigint(1), Value::string("foo")]))
}

#[test]
fn convert_tuple_into_typed_value() {
    let tuple = (1, 100);
    let v = Value::of_type((Int, Time), tuple);
    assert_eq!(v, Value::list(vec![Value::bigint(1), Value::time(100)]))
}

#[test]
fn convert_large_tuple_into_value() {
    let tuple = (1, 2, 3, 4, 5, "foo");
    let v = Value::from(tuple);
    match v.inner {
        Some(Inner::Collection(value)) if value.elements.len() == 6 => {}
        inner => panic!("Unexpected inner value {:?}", inner),
    }
}

#[test]
fn convert_option_into_value() {
    let some: Option<i64> = Some(123);
    let some_value: Value = some.into();
    assert_eq!(Value::bigint(123), some_value);

    let none: Option<i64> = None;
    let none_value: Value = none.into();
    assert_eq!(Value::null(), none_value);
}

#[test]
fn convert_option_into_any_using_of_type() {
    let v: Value = Value::of_type(Any, Some(1));
    assert_eq!(v, Value::bigint(1));

    let v: Value = Value::of_type(Any, None as Option<i32>);
    assert_eq!(v, Value::null());
}

#[test]
fn convert_vec_of_i64_into_value() {
    let list = vec![1, 2];
    let v1 = Value::from(list.clone());
    let v2 = Value::list(list.clone());
    assert_eq!(v1, Value::list(vec![Value::bigint(1), Value::bigint(2)]));
    assert_eq!(v1, v2);
}

#[test]
fn convert_nested_vec_i64_into_value() {
    let list = vec![vec![1, 2]];
    let expected = Value::list(vec![Value::list(vec![Value::bigint(1), Value::bigint(2)])]);
    let converted = Value::from(list);
    assert_eq!(converted, expected);
}

#[test]
fn convert_vec_of_dates_into_value() {
    let list = vec![1, 2];
    let v = Value::of_type(List(Date), list);
    assert_eq!(v, Value::list(vec![Value::date(1), Value::date(2)]));
}

#[test]
fn convert_vec_of_pairs_into_map_value() {
    let expected = Value::map(vec![
        (Value::bigint(1), Value::string("foo")),
        (Value::bigint(2), Value::string("bar")),
    ]);

    let list1 = vec![KeyValue(1, "foo"), KeyValue(2, "bar")];
    assert_eq!(Value::from(list1), expected.clone());

    let list2 = vec![(1, "foo"), (2, "bar")];
    assert_eq!(Value::of_type(MapOf(Int, Text), list2), expected.clone());
}

#[test]
fn convert_btree_map_into_value() {
    let mut map = BTreeMap::new();
    map.insert(1, "foo");
    map.insert(2, "bar");

    assert_eq!(
        Value::from_btree_map(Any, Any, map),
        Value::map(vec![
            (Value::bigint(1), Value::string("foo")),
            (Value::bigint(2), Value::string("bar")),
        ])
    );
}

#[test]
fn convert_hash_map_into_value() {
    let mut map = HashMap::new();
    map.insert(1, "foo"); // insert just one, so we don't run into problems with order

    assert_eq!(
        Value::from_hash_map(Any, Any, map),
        Value::map(vec![(Value::bigint(1), Value::string("foo"))])
    );
}

#[test]
fn convert_hash_map_to_udt_value() {
    let mut map = HashMap::new();
    map.insert("field1", Value::bigint(1));
    map.insert("field2", Value::string("bar"));
    let v = Value::udt(map.into_iter().collect());
    match v.inner {
        Some(Inner::Udt(value)) if value.fields.len() == 2 => {}
        inner => panic!("Unexpected udt inner value {:?}", inner),
    }
}

#[test]
fn convert_raw_udt_value_to_value() {
    let mut map = HashMap::new();
    map.insert("field1".to_string(), Value::bigint(1));
    map.insert("field2".to_string(), Value::string("bar"));
    let udt_value = UdtValue { fields: map.into_iter().collect() };
    let v = Value::from(udt_value);
    match v.inner {
        Some(Inner::Udt(value)) if value.fields.len() == 2 => {}
        inner => panic!("Unexpected udt inner value {:?}", inner),
    }
}
