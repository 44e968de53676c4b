use stargate_grpc::error::{ConversionError, ConversionErrorKind};
use stargate_grpc::proto::value::Inner;
use stargate_grpc::proto::{ColumnSpec, UdtValue, Values};
use stargate_grpc::record::{field_names, named_values, DefaultPolicy, FieldSpec};
use stargate_grpc::result::{ColumnPositions, MapperError, ResultSetMapper, TryFromRow};
use stargate_grpc::types;
use stargate_grpc::{DefaultGrpcType, IntoValue, Query, ResultSet, Row, TryFromValue, Value};

/// A record with two fields, written under their own names.
struct Address {
    street: &'static str,
    number: i64,
}

impl IntoValue<types::Udt> for Address {
    fn into_value(self) -> Value {
        let names = field_names(&vec![FieldSpec::new("street"), FieldSpec::new("number")]);
        Value::udt(vec![
            (names[0].as_str(), Value::from(self.street)),
            (names[1].as_str(), Value::from(self.number)),
        ])
    }
}

impl DefaultGrpcType for Address {
    type C = types::Udt;
}

/// A record whose field has a target type of its own.
struct Days {
    days: u32,
}

impl IntoValue<types::Udt> for Days {
    fn into_value(self) -> Value {
        let names = field_names(&vec![FieldSpec::new("days")]);
        Value::udt(vec![(names[0].as_str(), Value::of_type(types::Date, self.days))])
    }
}

impl DefaultGrpcType for Days {
    type C = types::Udt;
}

/// A record with a field that is not written.
struct AddressWithoutNumber {
    street: &'static str,
    #[allow(unused)]
    number: i64,
}

impl IntoValue<types::Udt> for AddressWithoutNumber {
    fn into_value(self) -> Value {
        let fields = vec![FieldSpec::new("street"), FieldSpec::new("number").skipped()];
        let names = field_names(&fields);
        assert_eq!(names, vec!["street".to_string()]);
        Value::udt(vec![(names[0].as_str(), Value::from(self.street))])
    }
}

impl DefaultGrpcType for AddressWithoutNumber {
    type C = types::Udt;
}

/// A record with a field that has another name on the other side.
#[derive(Debug, PartialEq, Eq)]
struct RenamedAddress {
    street: String,
    number: i64,
}

fn renamed_address_names() -> Vec<String> {
    field_names(&vec![FieldSpec::new("street").renamed("st"), FieldSpec::new("number")])
}

impl IntoValue<types::Udt> for RenamedAddress {
    fn into_value(self) -> Value {
        let names = renamed_address_names();
        Value::udt(vec![
            (names[0].as_str(), Value::from(self.street)),
            (names[1].as_str(), Value::from(self.number)),
        ])
    }
}

impl DefaultGrpcType for RenamedAddress {
    type C = types::Udt;
}

impl TryFromValue for RenamedAddress {
    type Model = ();

    fn try_from(value: Value) -> Result<Self, ConversionError> {
        let names = renamed_address_names();
        let mut udt: UdtValue = value.try_into()?;
        Ok(RenamedAddress {
            street: udt.try_take_field(names[0].as_str(), DefaultPolicy::none())?,
            number: udt.try_take_field(names[1].as_str(), DefaultPolicy::none())?,
        })
    }
}

/// A record that is read from a user defined type.
#[derive(Debug, PartialEq, Eq)]
struct OwnedAddress {
    street: String,
    number: i64,
}

impl TryFromValue for OwnedAddress {
    type Model = ();

    fn try_from(value: Value) -> Result<Self, ConversionError> {
        let mut udt: UdtValue = value.try_into()?;
        Ok(OwnedAddress {
            street: udt.try_take_field("street", DefaultPolicy::none())?,
            number: udt.try_take_field("number", DefaultPolicy::none())?,
        })
    }
}

fn default_path() -> String {
    "file.cfg".to_string()
}

/// A record whose fields have defaults.
struct ConfigFile {
    path: String,
    open_on_startup: bool,
    write_lock: bool,
}

impl TryFromValue for ConfigFile {
    type Model = ();

    fn try_from(value: Value) -> Result<Self, ConversionError> {
        let mut udt: UdtValue = value.try_into()?;
        Ok(ConfigFile {
            path: udt.try_take_field("path", DefaultPolicy::explicit(default_path()))?,
            open_on_startup: udt.try_take_field("open_on_startup", DefaultPolicy::implicit())?,
            write_lock: udt.try_take_field("write_lock", DefaultPolicy::implicit())?,
        })
    }
}

/// A record that is read from a row.
#[derive(Debug)]
struct User {
    id: i64,
    login: String,
}

impl ColumnPositions for User {
    fn field_to_column_pos(
        column_positions: &Vec<(String, usize)>,
    ) -> Result<Vec<usize>, MapperError> {
        stargate_grpc::result::field_to_column_pos(&vec!["id", "login"], column_positions)
    }
}

impl TryFromRow for User {
    type Model = ();

    fn try_unpack(row: Row, column_positions: &Vec<usize>) -> Result<Self, ConversionError> {
        let mut row = row;
        Ok(User {
            id: row.try_take(column_positions[0])?,
            login: row.try_take(column_positions[1])?,
        })
    }
}

fn udt_of(value: Value) -> UdtValue {
    match value.inner {
        Some(Inner::Udt(udt)) => udt,
        inner => panic!("Unexpected udt inner value {:?}", inner),
    }
}

#[test]
fn convert_struct_to_udt_value() {
    let addr = Address {
        street: "foo",
        number: 123,
    };
    let value = Value::from(addr);
    let udt = udt_of(value);
    assert_eq!(udt.get("street"), Some(&Value::string("foo")));
    assert_eq!(udt.get("number"), Some(&Value::bigint(123)));
}

#[test]
fn convert_struct_to_udt_value_with_typed_fields() {
    let days = Days { days: 34835 };
    let value = Value::from(days);
    let udt = udt_of(value);
    assert_eq!(udt.get("days"), Some(&Value::date(34835)));
}

#[test]
fn convert_struct_to_value_skip_fields() {
    let addr = AddressWithoutNumber {
        street: "foo",
        number: 123,
    };
    let value = Value::from(addr);
    let udt = udt_of(value);
    assert_eq!(udt.get("street"), Some(&Value::string("foo")));
    assert_eq!(udt.get("number"), None);
}

#[test]
fn rename_fields() {
    let addr = RenamedAddress {
        street: "foo".to_string(),
        number: 123,
    };
    let value = Value::from(addr);
    match &value.inner {
        Some(Inner::Udt(udt)) => {
            assert_eq!(udt.get("st"), Some(&Value::string("foo")));
            assert_eq!(udt.get("number"), Some(&Value::bigint(123)));
        }
        inner => panic!("Unexpected udt inner value {:?}", inner),
    }
    // convert back
    let addr: RenamedAddress = value.try_into().unwrap();
    assert_eq!(addr.street, "foo".to_string());
    assert_eq!(addr.number, 123);
}

#[test]
fn convert_udt_value_to_struct() {
    let udt_value = Value::udt(vec![
        ("street", Value::string("foo")),
        ("number", Value::bigint(123)),
    ]);
    let address: OwnedAddress = udt_value.try_into().unwrap();
    assert_eq!(address.street, "foo".to_string());
    assert_eq!(address.number, 123);
}

#[test]
fn convert_udt_value_to_struct_with_default() {
    let udt_value = Value::udt(vec![
        ("path", Value::null()),
        ("write_lock", Value::boolean(true)),
    ]);
    let file: ConfigFile = udt_value.try_into().unwrap();
    assert_eq!(file.path, default_path());
    assert_eq!(file.open_on_startup, false);
    assert_eq!(file.write_lock, true);
}

#[test]
fn convert_udt_value_to_struct_returns_err_on_field_conversion_err() {
    let udt_value = Value::udt(vec![
        ("street", Value::string("foo")),
        ("number", Value::string("wrong field type")),
    ]);
    let result: Result<OwnedAddress, ConversionError> = udt_value.try_into();
    assert!(result.is_err());
    assert_eq!(
        result.err().unwrap().kind,
        ConversionErrorKind::Incompatible
    )
}

#[test]
fn convert_udt_value_to_struct_returns_err_missing_fields() {
    let udt_value = Value::udt(vec![("number", Value::bigint(123))]);
    let result: Result<OwnedAddress, ConversionError> = udt_value.try_into();
    assert!(result.is_err());
    assert_eq!(
        result.err().unwrap().kind,
        ConversionErrorKind::FieldNotFound("street".to_string())
    )
}

#[test]
fn bind_struct_in_query() {
    let user = User {
        id: 1,
        login: "user".to_string(),
    };
    let query = Query::builder()
        .query("INSERT INTO users(id, login) VALUES (:id, :login)")
        .bind(named_values(vec![
            ("id", Value::from(user.id)),
            ("login", Value::from(user.login)),
        ]))
        .build();

    let values: Values = query.values.unwrap();
    assert_eq!(
        values.value_names,
        vec!["id".to_string(), "login".to_string()]
    );
    assert_eq!(values.values, vec![Value::bigint(1), Value::string("user")]);
}

#[test]
fn get_column_positions() {
    let positions = vec![("id".to_string(), 6), ("login".to_string(), 2)];
    let positions = User::field_to_column_pos(&positions).unwrap();
    assert_eq!(positions, vec![6, 2])
}

#[test]
fn get_column_positions_missing_column() {
    let positions = vec![("id".to_string(), 6)];
    let positions = User::field_to_column_pos(&positions);
    assert!(positions.is_err());
    assert_eq!(
        positions.err().unwrap(),
        MapperError::ColumnNotFound("login".to_string())
    );
}

fn column(name: &str) -> ColumnSpec {
    ColumnSpec {
        type_spec: None,
        name: name.to_string(),
    }
}

#[test]
fn convert_row_to_struct() {
    let result_set = ResultSet {
        columns: vec![column("id"), column("login")],
        rows: vec![Row {
            values: vec![Value::bigint(1), Value::string("user_1")],
        }],
        paging_state: None,
    };

    let mapper: ResultSetMapper<User> = result_set.mapper().unwrap();
    for row in result_set.rows {
        let user: User = mapper.try_unpack(row).unwrap();
        assert_eq!(user.id, 1);
        assert_eq!(user.login, "user_1");
    }
}

#[test]
fn convert_row_to_struct_returns_err_on_missing_column() {
    let result_set = ResultSet {
        columns: vec![column("id"), column("login")],
        rows: vec![Row {
            values: vec![Value::bigint(1)],
        }],
        paging_state: None,
    };

    let mapper: ResultSetMapper<User> = result_set.mapper().unwrap();
    for row in result_set.rows {
        let user: Result<User, ConversionError> = mapper.try_unpack(row);
        assert!(user.is_err());
        assert_eq!(
            user.err().unwrap().kind,
            ConversionErrorKind::WrongNumberOfItems { actual: 1, expected: 2 }
        );
    }
}

#[test]
fn convert_row_to_struct_returns_err_on_value_conversion_err() {
    let result_set = ResultSet {
        columns: vec![column("id"), column("login")],
        rows: vec![Row {
            values: vec![Value::string("wrong type"), Value::string("user_1")],
        }],
        paging_state: None,
    };

    let mapper: ResultSetMapper<User> = result_set.mapper().unwrap();
    for row in result_set.rows {
        let user: Result<User, ConversionError> = mapper.try_unpack(row);
        assert!(user.is_err());
        assert_eq!(user.err().unwrap().kind, ConversionErrorKind::Incompatible);
    }
}

#[test]
fn end_to_end_record() {
    let addr = RenamedAddress {
        street: "Zardzewiała".to_string(),
        number: 55,
    };
    let value = Value::from(addr);
    match &value.inner {
        Some(Inner::Udt(udt)) => {
            assert_eq!(
                udt.fields,
                vec![
                    ("st".to_string(), Value::string("Zardzewiała")),
                    ("number".to_string(), Value::bigint(55)),
                ]
            );
        }
        inner => panic!("Unexpected udt inner value {:?}", inner),
    }
    let back: RenamedAddress = value.try_into().unwrap();
    assert_eq!(
        back,
        RenamedAddress {
            street: "Zardzewiała".to_string(),
            number: 55,
        }
    );
}

#[test]
fn value_that_is_no_record_is_incompatible() {
    let result: Result<OwnedAddress, ConversionError> = Value::bigint(1).try_into();
    assert_eq!(result.err().unwrap().kind, ConversionErrorKind::Incompatible);
}
