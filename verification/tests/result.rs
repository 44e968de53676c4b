use stargate_grpc::error::{ConversionError, ConversionErrorKind};
use stargate_grpc::proto::{
    Any, ColumnSpec, Payload, Response, ResponseResult, SchemaChange, UdtValue,
};
use stargate_grpc::record::{field_names, field_slots, DefaultPolicy, FieldSpec};
use stargate_grpc::query::VALUES_TYPE_URL;
use stargate_grpc::result::{
    field_to_column_pos, find_column, ColumnPositions, MapperError, ResultSetMapper, TryFromRow,
};
use stargate_grpc::time::{
    date_days, into_naive_date, millis_since_epoch, signed_days, split_millis, timestamp_of,
    FIRST_DAY, LAST_DAY,
};
use stargate_grpc::{ResultSet, Row, Value};

/// A record of two columns, the second with a default.
#[derive(Debug, PartialEq, Eq)]
struct User {
    id: i64,
    login: String,
}

impl ColumnPositions for User {
    fn field_to_column_pos(
        column_positions: &Vec<(String, usize)>,
    ) -> Result<Vec<usize>, MapperError> {
        field_to_column_pos(&vec!["id", "login"], column_positions)
    }
}

impl TryFromRow for User {
    type Model = ();

    fn try_unpack(row: Row, column_positions: &Vec<usize>) -> Result<Self, ConversionError> {
        let mut row = row;
        Ok(User {
            id: row.try_take_field(column_positions[0], "id", DefaultPolicy::none())?,
            login: row.try_take_field(
                column_positions[1],
                "login",
                DefaultPolicy::explicit("nobody".to_string()),
            )?,
        })
    }
}

fn column(name: &str) -> ColumnSpec {
    ColumnSpec { type_spec: None, name: name.to_string() }
}

fn seven_columns() -> ResultSet {
    ResultSet {
        columns: vec![
            column("a"),
            column("b"),
            column("login"),
            column("c"),
            column("d"),
            column("e"),
            column("id"),
        ],
        rows: vec![],
        paging_state: None,
    }
}

#[test]
fn mapper_finds_columns_by_name() {
    let result_set = seven_columns();
    assert_eq!(
        result_set.column_positions(),
        vec![
            ("a".to_string(), 0),
            ("b".to_string(), 1),
            ("login".to_string(), 2),
            ("c".to_string(), 3),
            ("d".to_string(), 4),
            ("e".to_string(), 5),
            ("id".to_string(), 6),
        ]
    );
    assert_eq!(User::field_to_column_pos(&result_set.column_positions()).unwrap(), vec![6, 2]);
    let mapper: ResultSetMapper<User> = result_set.mapper().unwrap();
    let row = Row {
        values: vec![
            Value::null(),
            Value::null(),
            Value::string("admin"),
            Value::null(),
            Value::null(),
            Value::null(),
            Value::bigint(10),
            Value::string("more than is needed"),
        ],
    };
    assert_eq!(mapper.try_unpack(row).unwrap(), User { id: 10, login: "admin".to_string() });
}

#[test]
fn short_row_is_a_wrong_number_of_items() {
    let mapper: ResultSetMapper<User> = seven_columns().mapper().unwrap();
    let row = Row { values: vec![Value::string("not a number"); 5] };
    assert_eq!(
        mapper.try_unpack(row).err().unwrap().kind,
        ConversionErrorKind::WrongNumberOfItems { actual: 5, expected: 7 }
    );
}

#[test]
fn mapper_needs_every_column() {
    let result_set = ResultSet {
        columns: vec![column("login")],
        rows: vec![],
        paging_state: None,
    };
    let mapper: Result<ResultSetMapper<User>, MapperError> = result_set.mapper();
    assert_eq!(mapper.err().unwrap(), MapperError::ColumnNotFound("id".to_string()));
    assert_eq!(
        MapperError::ColumnNotFound("id".to_string()).message(),
        "Column id not found in the ResultSet"
    );
}

#[test]
fn later_column_of_a_name_is_read() {
    let columns = vec![("id".to_string(), 1), ("x".to_string(), 2), ("id".to_string(), 3)];
    assert_eq!(find_column(&columns, "id"), Some(3));
    assert_eq!(find_column(&columns, "x"), Some(2));
    assert_eq!(find_column(&columns, "y"), None);
    assert_eq!(field_to_column_pos(&vec!["x", "id", "x"], &columns).unwrap(), vec![2, 3, 2]);
    assert_eq!(
        field_to_column_pos(&vec!["x", "y", "z"], &columns).err().unwrap(),
        MapperError::ColumnNotFound("y".to_string())
    );
    assert_eq!(field_to_column_pos(&vec![], &columns).unwrap(), Vec::<usize>::new());
}

#[test]
fn field_of_a_row_falls_back_where_it_has_no_value() {
    let mapper: ResultSetMapper<User> = ResultSet {
        columns: vec![column("id"), column("login")],
        rows: vec![],
        paging_state: None,
    }
    .mapper()
    .unwrap();
    let user = mapper.try_unpack(Row { values: vec![Value::bigint(1), Value::null()] }).unwrap();
    assert_eq!(user, User { id: 1, login: "nobody".to_string() });
    let error = mapper
        .try_unpack(Row { values: vec![Value::unset(), Value::string("x")] })
        .err()
        .unwrap();
    assert_eq!(error.kind, ConversionErrorKind::FieldNotFound("id".to_string()));
    let error = mapper
        .try_unpack(Row { values: vec![Value::bigint(1), Value::bigint(2)] })
        .err()
        .unwrap();
    assert_eq!(error.kind, ConversionErrorKind::Incompatible);
}

#[test]
fn taking_from_a_row_leaves_an_empty_value() {
    let mut row = Row { values: vec![Value::bigint(1), Value::string("foo")] };
    let id: i64 = row.try_take(0).unwrap();
    let login: String = row.try_take(1).unwrap();
    assert_eq!(id, 1);
    assert_eq!(login, "foo".to_string());
    assert_eq!(row.values[0].inner, None);
    assert_eq!(row.values[1].inner, None);
    assert_eq!(
        row.try_take::<i64>(0).err().unwrap().kind,
        ConversionErrorKind::Incompatible
    );
    assert_eq!(
        row.try_take::<i64>(2).err().unwrap().kind,
        ConversionErrorKind::WrongNumberOfItems { actual: 2, expected: 2 }
    );
}

#[test]
fn getting_from_a_row_leaves_it_as_it_is() {
    let row = Row { values: vec![Value::bigint(1), Value::string("foo")] };
    assert_eq!(row.try_get::<i64>(0).unwrap(), 1);
    assert_eq!(row.try_get::<String>(1).unwrap(), "foo");
    assert_eq!(row.try_get::<i64>(0).unwrap(), 1);
    assert_eq!(
        row.try_get::<i64>(5).err().unwrap().kind,
        ConversionErrorKind::WrongNumberOfItems { actual: 2, expected: 5 }
    );
    assert_eq!(
        row.clone().into_single::<i64>().err().unwrap().kind,
        ConversionErrorKind::WrongNumberOfItems { actual: 2, expected: 1 }
    );
    assert_eq!(
        row.try_into::<(i64, String, i64)>().err().unwrap().kind,
        ConversionErrorKind::WrongNumberOfItems { actual: 2, expected: 3 }
    );
}

#[test]
fn result_set_is_found_in_the_response() {
    let response = Response {
        result: Some(ResponseResult::ResultSet(Payload {
            payload_type: 0,
            data: Some(Any { type_url: "type".to_string(), value: vec![1, 2, 3] }),
        })),
        warnings: vec![],
    };
    assert_eq!(ResultSet::encoded_in(&response).unwrap(), &vec![1, 2, 3]);

    let decoded = seven_columns();
    assert_eq!(
        ResultSet::from_decoded(&response, Ok(seven_columns())).unwrap(),
        decoded
    );
    let failure = prost::DecodeError::new("invalid wire type");
    let error = ResultSet::from_decoded(&response, Err(failure.clone())).err().unwrap();
    assert_eq!(error.kind, ConversionErrorKind::GrpcDecodeError(failure));
    assert_eq!(error.target_type_name, "ResultSet");
}

#[test]
fn response_without_result_set_is_incompatible() {
    let empty = Response { result: None, warnings: vec![] };
    assert_eq!(
        ResultSet::encoded_in(&empty).err().unwrap().kind,
        ConversionErrorKind::Incompatible
    );
    let no_data = Response {
        result: Some(ResponseResult::ResultSet(Payload { payload_type: 0, data: None })),
        warnings: vec![],
    };
    assert_eq!(
        ResultSet::encoded_in(&no_data).err().unwrap().kind,
        ConversionErrorKind::Incompatible
    );
    let schema_change = Response {
        result: Some(ResponseResult::SchemaChange(SchemaChange {
            change_type: 0,
            target: 0,
            keyspace: "ks".to_string(),
            name: None,
            argument_types: vec![],
        })),
        warnings: vec!["a warning".to_string()],
    };
    assert_eq!(
        ResultSet::encoded_in(&schema_change).err().unwrap().kind,
        ConversionErrorKind::Incompatible
    );
}

#[test]
fn payload_of_values_is_tagged() {
    let payload = Payload::of_values(vec![8, 9]);
    assert_eq!(
        payload,
        Payload {
            payload_type: 0,
            data: Some(Any {
                type_url: "type.googleapis.com/stargate.Values".to_string(),
                value: vec![8, 9],
            }),
        }
    );
    assert_eq!(VALUES_TYPE_URL, "type.googleapis.com/stargate.Values");
}

#[test]
fn error_names_source_and_target() {
    let error = Value::bigint(123).try_into::<String>().err().unwrap();
    assert_eq!(error.kind, ConversionErrorKind::Incompatible);
    assert_eq!(error.target_type_name, "String");
    assert_eq!(error.source, "Some(Int(123))");
    assert_eq!(error.message(), "Cannot convert value Some(Int(123)) to String");
    let made = ConversionError::out_of_range(5, "i8");
    assert_eq!(made.kind, ConversionErrorKind::OutOfRange);
    assert_eq!(made.source, "5");
    assert_eq!(made.target_type_name, "i8");
    let made = ConversionError::wrong_number_of_items("row", "pair", 3, 2);
    assert_eq!(made.kind, ConversionErrorKind::WrongNumberOfItems { actual: 3, expected: 2 });
    let made = ConversionError::field_not_found("udt", "Address", "street");
    assert_eq!(made.kind, ConversionErrorKind::FieldNotFound("street".to_string()));
    let made = ConversionError::incompatible("x", "y");
    assert_eq!(made.kind, ConversionErrorKind::Incompatible);
    let failure = prost::DecodeError::new("truncated");
    let made = ConversionError::decode_error("bytes", "ResultSet", failure.clone());
    assert_eq!(made.kind, ConversionErrorKind::GrpcDecodeError(failure));
}

#[test]
fn udt_fields_are_found_by_name() {
    let mut udt = UdtValue::new();
    assert_eq!(udt.insert("a".to_string(), Value::bigint(1)), None);
    assert_eq!(udt.insert("b".to_string(), Value::bigint(2)), None);
    assert_eq!(udt.insert("a".to_string(), Value::bigint(3)), Some(Value::bigint(1)));
    assert_eq!(
        udt.fields,
        vec![("a".to_string(), Value::bigint(3)), ("b".to_string(), Value::bigint(2))]
    );
    assert_eq!(udt.get("b"), Some(&Value::bigint(2)));
    assert_eq!(udt.get("c"), None);
    assert_eq!(udt.remove("a"), Some(Value::bigint(3)));
    assert_eq!(udt.remove("a"), None);
    assert_eq!(udt.fields, vec![("b".to_string(), Value::bigint(2))]);
}

#[test]
fn udt_keeps_the_last_value_of_a_name() {
    let value = Value::udt(vec![("a", 1), ("b", 2), ("a", 3)]);
    assert_eq!(
        value,
        Value::raw_udt(vec![
            ("a".to_string(), Value::bigint(3)),
            ("b".to_string(), Value::bigint(2))
        ])
    );
}

#[test]
fn udt_field_is_read_under_a_policy() {
    let mut udt = UdtValue {
        fields: vec![
            ("n".to_string(), Value::bigint(1)),
            ("null".to_string(), Value::null()),
            ("text".to_string(), Value::string("x")),
        ],
    };
    assert_eq!(udt.try_take_field::<i64>("n", DefaultPolicy::none()).unwrap(), 1);
    assert_eq!(udt.fields.len(), 2);
    assert_eq!(
        udt.try_take_field::<i64>("n", DefaultPolicy::none()).err().unwrap().kind,
        ConversionErrorKind::FieldNotFound("n".to_string())
    );
    assert_eq!(udt.try_take_field::<i64>("n", DefaultPolicy::explicit(7)).unwrap(), 7);
    assert_eq!(udt.try_take_field::<i64>("n", DefaultPolicy::implicit()).unwrap(), 0);
    assert_eq!(udt.try_take_field::<i64>("null", DefaultPolicy::explicit(9)).unwrap(), 9);
    assert_eq!(
        udt.try_take_field::<i64>("text", DefaultPolicy::explicit(9)).err().unwrap().kind,
        ConversionErrorKind::Incompatible
    );
    assert!(udt.fields.is_empty());
}

#[test]
fn field_names_follow_the_specs() {
    let fields = vec![
        FieldSpec::new("street").renamed("st"),
        FieldSpec::new("secret").skipped(),
        FieldSpec::new("number"),
    ];
    assert_eq!(field_names(&fields), vec!["st".to_string(), "number".to_string()]);
    assert_eq!(
        fields[0],
        FieldSpec { ident: "street".to_string(), name: Some("st".to_string()), skip: false }
    );
    assert_eq!(field_names(&vec![]), Vec::<String>::new());
}

#[test]
fn milliseconds_split_into_seconds_and_nanoseconds() {
    assert_eq!(split_millis(10000), (10, 0));
    assert_eq!(split_millis(1633478400021), (1633478400, 21_000_000));
    assert_eq!(split_millis(0), (0, 0));
    assert_eq!(split_millis(-1), (-1, 999_000_000));
    assert_eq!(split_millis(-1000), (-1, 0));
    assert_eq!(split_millis(-1001), (-2, 999_000_000));
    assert_eq!(split_millis(i64::MIN), (-9223372036854776, 192_000_000));
    assert_eq!(split_millis(i64::MAX), (9223372036854775, 807_000_000));
}

#[test]
fn numbers_of_times_and_dates_are_checked() {
    assert_eq!(millis_since_epoch(10000).unwrap(), 10000);
    assert_eq!(millis_since_epoch(-1).err().unwrap().kind, ConversionErrorKind::OutOfRange);
    assert_eq!(timestamp_of(10000).unwrap(), 10000);
    assert_eq!(timestamp_of(i64::MAX as u128).unwrap(), i64::MAX);
    assert_eq!(
        timestamp_of(i64::MAX as u128 + 1).err().unwrap().kind,
        ConversionErrorKind::OutOfRange
    );
    assert_eq!(signed_days(18740).unwrap(), 18740);
    assert_eq!(signed_days(1 << 31).err().unwrap().kind, ConversionErrorKind::OutOfRange);
    assert_eq!(date_days(18740).unwrap(), 18740);
    assert_eq!(date_days(-1).err().unwrap().kind, ConversionErrorKind::OutOfRange);
}

#[test]
fn days_are_dates_of_the_calendar() {
    assert_eq!(
        into_naive_date(730_000).unwrap(),
        chrono::NaiveDate::from_ymd_opt(1999, 9, 3).unwrap()
    );
    assert_eq!(into_naive_date(1).unwrap(), chrono::NaiveDate::from_ymd_opt(1, 1, 1).unwrap());
    assert_eq!(
        into_naive_date(100_000_000).err().unwrap().kind,
        ConversionErrorKind::OutOfRange
    );
    assert_eq!(into_naive_date(u32::MAX).err().unwrap().kind, ConversionErrorKind::OutOfRange);
}

#[test]
fn calendar_ends_where_the_library_says() {
    let date_of = chrono::NaiveDate::from_num_days_from_ce_opt;
    assert_eq!(date_of(FIRST_DAY), Some(chrono::NaiveDate::MIN));
    assert_eq!(date_of(FIRST_DAY - 1), None);
    assert_eq!(date_of(LAST_DAY), Some(chrono::NaiveDate::MAX));
    assert_eq!(date_of(LAST_DAY + 1), None);
    assert_eq!(date_of(i32::MAX), None);
    assert_eq!(date_of(i32::MIN), None);
    assert_eq!(into_naive_date(95_745_399).unwrap(), chrono::NaiveDate::MAX);
    assert_eq!(
        into_naive_date(95_745_400).err().unwrap().kind,
        ConversionErrorKind::OutOfRange
    );
    assert_eq!(into_naive_date(0).unwrap(), chrono::NaiveDate::from_ymd_opt(0, 12, 31).unwrap());
}

#[test]
fn fields_have_their_slots() {
    let fields = vec![
        FieldSpec::new("street").renamed("st"),
        FieldSpec::new("secret").skipped(),
        FieldSpec::new("number"),
        FieldSpec::new("cache").skipped(),
        FieldSpec::new("town"),
    ];
    assert_eq!(field_slots(&fields), vec![Some(0), None, Some(1), None, Some(2)]);
    let names = field_names(&fields);
    assert_eq!(names[1], "number");
    assert_eq!(names[2], "town");
    assert_eq!(field_slots(&vec![]), Vec::<Option<usize>>::new());
}

#[test]
fn udt_built_by_insert_has_each_name_once() {
    let mut udt = UdtValue::new();
    for (name, value) in [("a", 1), ("b", 2), ("a", 3), ("c", 4), ("b", 5)] {
        udt.insert(name.to_string(), Value::bigint(value));
    }
    let names: Vec<&str> = udt.fields.iter().map(|(name, _)| name.as_str()).collect();
    assert_eq!(names, vec!["a", "b", "c"]);
    udt.remove("b");
    let names: Vec<&str> = udt.fields.iter().map(|(name, _)| name.as_str()).collect();
    assert_eq!(names, vec!["a", "c"]);
}
