use std::collections::{BTreeMap, HashMap};
use std::convert::TryInto;
use std::time::{Duration, SystemTime, UNIX_EPOCH};

use chrono::{Datelike, TimeZone};

use stargate_grpc::error::ConversionErrorKind;
use stargate_grpc::proto::{Decimal, Inet, Row, Uuid, Varint};
use stargate_grpc::{Float32, Float64, KeyValue, Value};

#[test]
fn convert_value_to_i64() {
    let v = Value::bigint(123);
    let int: i64 = v.try_into().unwrap();
    assert_eq!(int, 123)
}

#[test]
fn convert_value_to_f32() {
    let v = Value::float(Float32::from_bits(3.5f32.to_bits()));
    let float: Float32 = v.try_into().unwrap();
    assert_eq!(f32::from_bits(float.to_bits()), 3.5)
}

#[test]
fn convert_value_to_f64() {
    let v = Value::double(Float64::from_bits(3.5f64.to_bits()));
    let double: Float64 = v.try_into().unwrap();
    assert_eq!(f64::from_bits(double.to_bits()), 3.5)
}

#[test]
fn convert_value_to_string() {
    let v = Value::string("foo");
    let s: String = v.try_into().unwrap();
    assert_eq!(s, "foo".to_string())
}

#[test]
fn convert_bytes_value_to_vec() {
    let v = Value::bytes(vec![1, 2]);
    let buf: Vec<u8> = v.try_into().unwrap();
    assert_eq!(buf, vec![1, 2])
}

#[test]
fn convert_value_to_inet() {
    let v = Value::raw_inet(vec![1, 2]);
    let inet: Inet = v.try_into().unwrap();
    assert_eq!(inet, Inet { value: vec![1, 2] })
}

#[test]
fn convert_value_to_decimal() {
    let v = Value::raw_decimal(2, vec![1, 2]);
    let decimal: Decimal = v.try_into().unwrap();
    assert_eq!(
        decimal,
        Decimal {
            scale: 2,
            value: vec![1, 2]
        }
    )
}

#[test]
fn convert_value_to_varint() {
    let v = Value::raw_varint(vec![1, 2]);
    let varint: Varint = v.try_into().unwrap();
    assert_eq!(varint, Varint { value: vec![1, 2] })
}

#[test]
fn convert_value_to_uuid() {
    let v = Value::raw_uuid(&[1; 16]);
    let uuid: Uuid = v.try_into().unwrap();
    assert_eq!(
        uuid,
        Uuid {
            value: [1; 16].to_vec()
        }
    )
}

#[test]
fn convert_value_to_uuid_uuid() {
    let v = Value::raw_uuid(&[1; 16]);
    let bytes: [u8; 16] = v.try_into().unwrap();
    let uuid = uuid::Uuid::from_bytes(bytes);
    assert_eq!(uuid.as_bytes(), &[1; 16])
}

#[test]
fn convert_value_to_system_time() {
    let v = Value::bigint(10000);
    let timestamp: i64 = v.try_into().unwrap();
    let millis = stargate_grpc::time::millis_since_epoch(timestamp).unwrap();
    let time: SystemTime = UNIX_EPOCH.checked_add(Duration::from_millis(millis)).unwrap();
    assert_eq!(time.duration_since(UNIX_EPOCH).unwrap().as_millis(), 10000);
}

#[test]
fn convert_value_to_chrono_date_time() {
    let v = Value::bigint(10000);
    let millis: i64 = v.try_into().unwrap();
    let (seconds, nanos) = stargate_grpc::time::split_millis(millis);
    let time: chrono::DateTime<chrono::Utc> = chrono::Utc.timestamp_opt(seconds, nanos).unwrap();
    assert_eq!(time.timestamp_millis(), 10000);
}

#[test]
fn convert_value_to_chrono_date() {
    let v = Value::date(10000);
    let days: u32 = v.try_into().unwrap();
    let date: chrono::NaiveDate = stargate_grpc::time::into_naive_date(days).unwrap();
    assert_eq!(date.num_days_from_ce(), 10000);
}

#[test]
fn convert_value_to_option() {
    let some = Value::bigint(123);
    let none = Value::null();

    let some_int: Option<i64> = some.try_into().unwrap();
    let none_int: Option<i64> = none.try_into().unwrap();

    assert_eq!(some_int, Some(123));
    assert_eq!(none_int, None);
}

#[test]
fn convert_value_to_heterogeneous_vec() {
    let v1 = Value::bigint(1);
    let v2 = Value::bigint(2);
    let v = Value::list(vec![v1.clone(), v2.clone()]);

    let vec: Vec<Value> = v.try_into().unwrap();
    assert_eq!(vec, vec![v1, v2]);
}

#[test]
fn convert_value_to_homogenous_vec() {
    let v1 = Value::bigint(1);
    let v2 = Value::bigint(2);
    let v = Value::list(vec![v1, v2]);

    let vec: Vec<i64> = v.try_into().unwrap();
    assert_eq!(vec, vec![1, 2]);
}

#[test]
fn convert_value_to_vec_of_key_value() {
    let v1 = Value::bigint(1);
    let v2 = Value::bigint(2);
    let v = Value::list(vec![v1, v2]);
    let vec: Vec<KeyValue<i64, i64>> = v.try_into().unwrap();
    assert_eq!(vec, vec![KeyValue(1, 2)]);
}

#[test]
fn convert_value_to_hash_map() {
    let v1 = Value::bigint(1);
    let v2 = Value::string("foo".to_string());
    let v = Value::list(vec![v1, v2]);
    let map: HashMap<i64, String> = v.try_into().unwrap();
    assert_eq!(map.get(&1), Some("foo".to_string()).as_ref());
}

#[test]
fn convert_value_to_btree_map() {
    let v1 = Value::bigint(1);
    let v2 = Value::string("foo".to_string());
    let v = Value::list(vec![v1, v2]);
    let map: BTreeMap<i64, String> = v.try_into().unwrap();
    assert_eq!(map.get(&1), Some("foo".to_string()).as_ref());
}

#[test]
fn convert_value_to_nested_collections() {
    let key = Value::string("foo".to_string());
    let v1 = Value::bigint(1);
    let v2 = Value::bigint(2);
    let list = Value::list(vec![v1, v2]);
    let v = Value::list(vec![key, list]);

    let map: HashMap<String, Vec<i64>> = v.try_into().unwrap();
    assert_eq!(map.get(&"foo".to_string()), Some(vec![1, 2]).as_ref());
}

#[test]
fn convert_value_to_tuples() {
    let v1 = Value::bigint(1);
    let v2 = Value::float(Float32::from_bits(2.5f32.to_bits()));
    let v = Value::list(vec![v1, v2]);
    let (a, b): (i64, Float32) = v.try_into().unwrap();
    assert_eq!(a, 1);
    assert_eq!(f32::from_bits(b.to_bits()), 2.5);
}

#[test]
fn convert_value_to_triples() {
    let v1 = Value::bigint(1);
    let v2 = Value::bigint(2);
    let v3 = Value::float(Float32::from_bits(2.5f32.to_bits()));
    let v = Value::list(vec![v1, v2, v3]);

    let (a, b, c): (i64, i64, Float32) = v.try_into().unwrap();
    assert_eq!(a, 1);
    assert_eq!(b, 2);
    assert_eq!(f32::from_bits(c.to_bits()), 2.5);
}

#[test]
fn unexpected_type() {
    let v = Value::bigint(123);
    assert!(v.try_into::<String>().is_err());
}

#[test]
fn unexpected_tuple_size() {
    let v1 = Value::bigint(1);
    let v2 = Value::float(Float32::from_bits(2.5f32.to_bits()));
    let v = Value::list(vec![v1, v2]);
    let result = v.try_into::<(i64, Float32, Float32, Float32)>();
    assert!(result.is_err());
    assert_eq!(
        result.err().unwrap().kind,
        ConversionErrorKind::WrongNumberOfItems { actual: 2, expected: 4 }
    );
}

#[test]
fn pass_value_as_try_into() {
    fn into_i64<T: TryInto<i64>>(value: T) -> i64 {
        value.try_into().unwrap_or(-1)
    }

    let v1 = Value::bigint(1);
    assert_eq!(1, into_i64(v1));
    assert_eq!(-1, into_i64(Value::string("one")));
}

#[test]
fn convert_row_to_i64() {
    let values = vec![Value::bigint(1)];
    let row = Row { values };
    let int: i64 = row.into_single().unwrap();
    assert_eq!(int, 1);
}

#[test]
fn convert_row_to_list() {
    let values = vec![Value::list(vec![1, 2, 3])];
    let row = Row { values };
    let int: Vec<i64> = row.into_single().unwrap();
    assert_eq!(int, vec![1, 2, 3]);
}

#[test]
fn convert_row_to_tuple() {
    let values = vec![
        Value::bigint(1),
        Value::double(Float64::from_bits(2.0f64.to_bits())),
        Value::string("foo"),
    ];
    let row = Row { values };
    let (a, b, c): (i64, Float64, String) = row.try_into().unwrap();
    assert_eq!(a, 1);
    assert_eq!(f64::from_bits(b.to_bits()), 2.0);
    assert_eq!(c, "foo".to_string());
}

#[test]
fn convert_single_item_of_a_row() {
    let values = vec![
        Value::bigint(1),
        Value::double(Float64::from_bits(2.0f64.to_bits())),
        Value::string("foo"),
    ];
    let row = Row { values };
    let a: i64 = row.get(0).unwrap();
    let b: Float64 = row.get(1).unwrap();
    let c: String = row.get(2).unwrap();
    assert_eq!(a, 1);
    assert_eq!(f64::from_bits(b.to_bits()), 2.0);
    assert_eq!(c, "foo".to_string());
}
