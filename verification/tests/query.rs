use stargate_grpc::proto::{
    BatchParameters, BatchQuery, ConsistencyValue, QueryParameters, Values,
};
use stargate_grpc::query::{BatchBuilder, PayloadBuilder, QueryBuilder};
use stargate_grpc::{Batch, Consistency, Query, Value};

#[test]
fn bind_by_position_extends_with_unset() {
    let query = Query::builder()
        .query("UPDATE t SET a = ?, b = ?, c = ? WHERE id = ?")
        .bind_ith(0, 1)
        .bind_ith(3, "key")
        .build();
    let values = query.values.unwrap();
    assert_eq!(
        values.values,
        vec![Value::bigint(1), Value::unset(), Value::unset(), Value::string("key")]
    );
    assert!(values.value_names.is_empty());
}

#[test]
fn bind_by_position_overwrites_the_position() {
    let mut payload = PayloadBuilder::new();
    payload.bind_ith(1, 10);
    payload.bind_ith(0, "a");
    payload.bind_ith(1, 20);
    let values = payload.build().unwrap();
    assert_eq!(values.values, vec![Value::string("a"), Value::bigint(20)]);
}

#[test]
fn bind_tuple_and_vector_bind_the_same() {
    let cql = "SELECT * FROM table WHERE year = ? and month = ?";
    let query1 = Query::builder().query(cql).bind((2021, "October")).build();
    let query2 = Query::builder()
        .query(cql)
        .bind(vec![Value::bigint(2021), Value::string("October")])
        .build();
    assert_eq!(query1.values, query2.values);
    assert_eq!(
        query1.values,
        Some(Values {
            values: vec![Value::bigint(2021), Value::string("October")],
            value_names: vec![],
        })
    );
}

#[test]
fn bind_appends_to_what_is_bound() {
    let query = Query::builder()
        .query("SELECT * FROM t WHERE a = ? AND b = ? AND c = ?")
        .bind_ith(0, 1)
        .bind((2, 3))
        .build();
    assert_eq!(
        query.values.unwrap().values,
        vec![Value::bigint(1), Value::bigint(2), Value::bigint(3)]
    );
}

#[test]
fn bind_by_name_keeps_names_beside_values() {
    let query = Query::builder()
        .query("SELECT * FROM table WHERE year = :year and month = :month")
        .bind_name("year", 2021)
        .bind_name("month", "October")
        .build();
    assert_eq!(
        query.values,
        Some(Values {
            values: vec![Value::bigint(2021), Value::string("October")],
            value_names: vec!["year".to_string(), "month".to_string()],
        })
    );
}

#[test]
fn builder_tells_which_binding_it_takes() {
    let fresh = QueryBuilder::new();
    assert!(fresh.can_bind());
    assert!(fresh.can_bind_name());
    assert!(!fresh.has_query());

    let positional = QueryBuilder::new().query("SELECT 1").bind_ith(0, 1);
    assert!(positional.has_query());
    assert!(positional.can_bind());
    assert!(!positional.can_bind_name());

    let named = QueryBuilder::new().bind_name("a", 1);
    assert!(!named.can_bind());
    assert!(named.can_bind_name());
}

#[test]
fn no_values_build_no_payload() {
    let query = Query::builder().query("SELECT * FROM t").build();
    assert_eq!(query.cql, "SELECT * FROM t");
    assert_eq!(query.values, None);
    assert_eq!(query.parameters, Some(QueryParameters::default()));
}

#[test]
fn payload_builder_is_drained_by_build() {
    let mut payload = PayloadBuilder::new();
    assert_eq!(payload.build(), None);
    payload.bind_name("a", 1);
    assert!(payload.build().is_some());
    assert_eq!(payload.build(), None);
    assert!(payload.can_bind());
}

#[test]
fn query_settings_are_none_until_set() {
    let parameters = QueryParameters::default();
    assert_eq!(
        parameters,
        QueryParameters {
            keyspace: None,
            consistency: None,
            page_size: None,
            paging_state: None,
            tracing: false,
            timestamp: None,
            serial_consistency: None,
        }
    );
}

#[test]
fn query_settings_are_set_one_by_one() {
    let query = Query::builder()
        .keyspace("ks")
        .consistency(Consistency::LocalQuorum)
        .serial_consistency(Consistency::Serial)
        .page_size(100)
        .paging_state(vec![1, 2, 3])
        .tracing(true)
        .timestamp(1633005636085)
        .query("SELECT * FROM t")
        .build();
    assert_eq!(
        query.parameters,
        Some(QueryParameters {
            keyspace: Some("ks".to_string()),
            consistency: Some(ConsistencyValue { value: 6 }),
            page_size: Some(100),
            paging_state: Some(vec![1, 2, 3]),
            tracing: true,
            timestamp: Some(1633005636085),
            serial_consistency: Some(ConsistencyValue { value: 8 }),
        })
    );
}

#[test]
fn query_parameters_replace_all_settings() {
    let parameters = QueryParameters {
        keyspace: Some("other".to_string()),
        consistency: None,
        page_size: Some(5),
        paging_state: None,
        tracing: false,
        timestamp: None,
        serial_consistency: None,
    };
    let query = Query::builder()
        .keyspace("ks")
        .tracing(true)
        .parameters(parameters.clone())
        .query("SELECT 1")
        .build();
    assert_eq!(query.parameters, Some(parameters));
}

#[test]
fn cloned_builder_shares_the_settings() {
    let query_defaults = Query::builder()
        .keyspace("ks")
        .consistency(Consistency::LocalQuorum);
    let query1 = query_defaults.clone().query("SELECT * FROM table1").build();
    let query2 = query_defaults.clone().query("SELECT * FROM table2").build();
    assert_eq!(query1.cql, "SELECT * FROM table1");
    assert_eq!(query2.cql, "SELECT * FROM table2");
    assert_eq!(query1.parameters, query2.parameters);
}

#[test]
fn consistency_levels_have_their_numbers() {
    let levels = [
        (Consistency::Any, 0),
        (Consistency::One, 1),
        (Consistency::Two, 2),
        (Consistency::Three, 3),
        (Consistency::Quorum, 4),
        (Consistency::All, 5),
        (Consistency::LocalQuorum, 6),
        (Consistency::EachQuorum, 7),
        (Consistency::Serial, 8),
        (Consistency::LocalSerial, 9),
        (Consistency::LocalOne, 10),
    ];
    for (level, code) in levels {
        assert_eq!(i32::from(level), code);
    }
}

#[test]
fn batch_statements_keep_their_own_values() {
    let batch = Batch::builder()
        .keyspace("example")
        .consistency(Consistency::LocalQuorum)
        .query("INSERT INTO users (id, login, email) VALUES (?, ?, ?)")
        .bind((0, "admin", "admin@example.net"))
        .query("INSERT INTO users_by_login (id, login) VALUES (:id, :login)")
        .bind_name("id", 0)
        .bind_name("login", "admin")
        .query("TRUNCATE log")
        .build();
    assert_eq!(batch.batch_type, 0);
    assert_eq!(
        batch.queries,
        vec![
            BatchQuery {
                cql: "INSERT INTO users (id, login, email) VALUES (?, ?, ?)".to_string(),
                values: Some(Values {
                    values: vec![
                        Value::bigint(0),
                        Value::string("admin"),
                        Value::string("admin@example.net")
                    ],
                    value_names: vec![],
                }),
            },
            BatchQuery {
                cql: "INSERT INTO users_by_login (id, login) VALUES (:id, :login)".to_string(),
                values: Some(Values {
                    values: vec![Value::bigint(0), Value::string("admin")],
                    value_names: vec!["id".to_string(), "login".to_string()],
                }),
            },
            BatchQuery {
                cql: "TRUNCATE log".to_string(),
                values: None,
            },
        ]
    );
    assert_eq!(
        batch.parameters,
        Some(BatchParameters {
            keyspace: Some("example".to_string()),
            consistency: Some(ConsistencyValue { value: 6 }),
            tracing: false,
            timestamp: None,
            serial_consistency: None,
        })
    );
}

#[test]
fn batch_settings_are_set_one_by_one() {
    let batch = BatchBuilder::new()
        .tracing(true)
        .timestamp(7)
        .serial_consistency(Consistency::LocalSerial)
        .build();
    assert!(batch.queries.is_empty());
    assert_eq!(
        batch.parameters,
        Some(BatchParameters {
            keyspace: None,
            consistency: None,
            tracing: true,
            timestamp: Some(7),
            serial_consistency: Some(ConsistencyValue { value: 9 }),
        })
    );
    let replaced = BatchBuilder::new()
        .tracing(true)
        .parameters(BatchParameters::default())
        .build();
    assert_eq!(replaced.parameters, Some(BatchParameters::default()));
}

#[test]
fn batch_finalize_completes_the_pending_statement() {
    let mut builder = Batch::builder().query("DELETE FROM t WHERE id = ?").bind_ith(0, 5);
    assert!(!builder.can_bind_name());
    builder.finalize_query();
    assert!(builder.can_bind());
    assert!(builder.can_bind_name());
    builder.finalize_query();
    let batch = builder.build();
    assert_eq!(batch.queries.len(), 1);
    assert_eq!(batch.queries[0].values.as_ref().unwrap().values, vec![Value::bigint(5)]);
}

#[test]
fn earlier_names_bind_the_same() {
    let query1 = QueryBuilder::new()
        .query("SELECT * FROM table WHERE year = ? and month = ?")
        .value(0, 2021)
        .value(1, "October")
        .build();
    let query2 = QueryBuilder::new()
        .query("SELECT * FROM table WHERE year = ? and month = ?")
        .values((2021, "October"))
        .build();
    let query3 = QueryBuilder::new()
        .query("SELECT * FROM table WHERE year = ? and month = ?")
        .values(stargate_grpc::query::QueryValues(vec![
            Value::bigint(2021),
            Value::string("October"),
        ]))
        .build();
    assert_eq!(query1.values, query2.values);
    assert_eq!(query1.values, query3.values);
    let named = QueryBuilder::new()
        .query("SELECT * FROM table WHERE year = :year")
        .named_value("year", 2021)
        .build();
    assert_eq!(
        named.values,
        Some(Values {
            values: vec![Value::bigint(2021)],
            value_names: vec!["year".to_string()],
        })
    );
}

#[test]
fn cloned_batch_builder_keeps_its_statements() {
    let builder = Batch::builder()
        .keyspace("ks")
        .query("INSERT INTO t (a) VALUES (?)")
        .bind_ith(0, 1)
        .query("DELETE FROM t WHERE a = :a")
        .bind_name("a", 2);
    let copy = builder.clone();
    assert_eq!(copy.build(), builder.build());
}

#[test]
fn statement_without_values_has_none() {
    let batch = Batch::builder()
        .query("A")
        .bind(vec![Value::bigint(1), Value::string("x")])
        .query("B")
        .build();
    assert_eq!(batch.queries.len(), 2);
    assert_eq!(
        batch.queries[0].values,
        Some(Values {
            values: vec![Value::bigint(1), Value::string("x")],
            value_names: vec![],
        })
    );
    assert_eq!(batch.queries[1].cql, "B");
    assert_eq!(batch.queries[1].values, None);
    let empty_list = Query::builder().query("C").bind(Vec::<Value>::new()).build();
    assert_eq!(empty_list.values, None);
}
