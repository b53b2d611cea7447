use any_bridge::adapter::plan_execute;
use any_bridge::connect::{derive_connect_options, ErasedConnectOptions, LogLevel, LogSettings};
use any_bridge::statement::{to_erased_describe, to_erased_statement, ConcreteDescribe,
    ConcreteStatement};
use any_bridge::error::BridgeError;
use any_bridge::row::{project_row, to_erased_column, ConcreteColumn, ConcreteRow, ErasedRow};
use any_bridge::stream::{fetch_optional_scan, project_events, ConcreteItem, ErasedItem,
    StreamEvent};
use any_bridge::summary::{map_summary, ConcreteSummary, ErasedSummary};
use any_bridge::types::{DataType, ErasedKind};
use any_bridge::value::{ConcreteValue, ErasedValue};

fn two_columns() -> Vec<ConcreteColumn> {
    vec![
        ConcreteColumn { ordinal: 0, name: String::from("id"), type_info: DataType::Int },
        ConcreteColumn { ordinal: 1, name: String::from("label"), type_info: DataType::Text },
    ]
}

fn row(values: Vec<ConcreteValue>) -> ConcreteRow {
    ConcreteRow { values }
}

#[test]
fn concrete_scenario_round_trips_42_and_a() {
    // Binding [Integer(42), Text("a")] yields a native 32-bit integer 42 and
    // the exact byte sequence "a"...
    let req = plan_execute(
        String::from("SELECT ?1, ?2"),
        Some(vec![ErasedValue::Integer(42), ErasedValue::Text(String::from("a"))]),
        8,
    )
    .unwrap();
    assert!(req.persistent);
    let bound = req.arguments.unwrap();
    assert_eq!(
        bound.values,
        vec![ConcreteValue::Int(42), ConcreteValue::Text(String::from("a"))]
    );

    // ... and a fetched row (42, "a") projects back to the same erased values.
    let cols = two_columns();
    let erased = project_row(
        &cols,
        row(vec![ConcreteValue::Int(42), ConcreteValue::Text(String::from("a"))]),
    )
    .unwrap();
    assert_eq!(
        erased.values,
        vec![ErasedValue::Integer(42), ErasedValue::Text(String::from("a"))]
    );
}

#[test]
fn statement_without_arguments_is_not_persistent() {
    let req = plan_execute(String::from("VACUUM"), None, 4).unwrap();
    assert!(!req.persistent);
    assert!(req.arguments.is_none());
    assert_eq!(req.channel_capacity, 4);
}

#[test]
fn null_cells_decode_to_erased_null() {
    let cols = two_columns();
    let erased = project_row(&cols, row(vec![ConcreteValue::Null, ConcreteValue::Null])).unwrap();
    assert_eq!(erased.values, vec![ErasedValue::Null, ErasedValue::Null]);
}

#[test]
fn cell_type_mismatch_names_the_column() {
    let cols = two_columns();
    match project_row(&cols, row(vec![ConcreteValue::Int(1), ConcreteValue::Int64(2)])) {
        Err(BridgeError::ColumnDecode { index, .. }) => assert_eq!(index, "label"),
        other => panic!("expected a column-decode error, got {:?}", other),
    }
}

#[test]
fn unbridgeable_column_type_names_the_column() {
    let col = ConcreteColumn { ordinal: 0, name: String::from("when"), type_info: DataType::Date };
    match to_erased_column(&col) {
        Err(BridgeError::ColumnDecode { index, message }) => {
            assert_eq!(index, "when");
            assert_eq!(message, "Date");
        },
        other => panic!("expected a column-decode error, got {:?}", other),
    }
}

#[test]
fn summary_drops_the_backend_rowid() {
    let s = map_summary(ConcreteSummary { rows_affected: 3, last_insert_rowid: 77 });
    assert_eq!(s, ErasedSummary { rows_affected: 3, last_insert_id: None });
}

#[test]
fn batch_streams_summary_then_rows_in_order() {
    let cols = two_columns();
    let events = vec![
        StreamEvent::Item(ConcreteItem::Summary(ConcreteSummary {
            rows_affected: 1,
            last_insert_rowid: 9,
        })),
        StreamEvent::Item(ConcreteItem::Row(row(vec![
            ConcreteValue::Int(1),
            ConcreteValue::Text(String::from("x")),
        ]))),
        StreamEvent::Item(ConcreteItem::Row(row(vec![
            ConcreteValue::Int(2),
            ConcreteValue::Text(String::from("y")),
        ]))),
    ];
    let out = project_events(&cols, events);
    assert_eq!(out.len(), 3);
    match &out[0] {
        Ok(ErasedItem::Summary(s)) => {
            assert_eq!(*s, ErasedSummary { rows_affected: 1, last_insert_id: None })
        },
        other => panic!("expected the summary first, got {:?}", other),
    }
    match &out[1] {
        Ok(ErasedItem::Row(r)) => {
            assert_eq!(
                r.values,
                vec![ErasedValue::Integer(1), ErasedValue::Text(String::from("x"))]
            )
        },
        other => panic!("expected the first row second, got {:?}", other),
    }
    match &out[2] {
        Ok(ErasedItem::Row(r)) => {
            assert_eq!(
                r.values,
                vec![ErasedValue::Integer(2), ErasedValue::Text(String::from("y"))]
            )
        },
        other => panic!("expected the second row third, got {:?}", other),
    }
}

#[test]
fn a_failure_ends_the_sequence_as_its_final_item() {
    let cols = two_columns();
    let events = vec![
        StreamEvent::Item(ConcreteItem::Row(row(vec![
            ConcreteValue::Int(1),
            ConcreteValue::Text(String::from("x")),
        ]))),
        StreamEvent::Failure(String::from("database is locked")),
        StreamEvent::Item(ConcreteItem::Row(row(vec![
            ConcreteValue::Int(2),
            ConcreteValue::Text(String::from("y")),
        ]))),
    ];
    let out = project_events(&cols, events);
    // The row already delivered stays valid; the failure is final; nothing follows.
    assert_eq!(out.len(), 2);
    assert!(out[0].is_ok());
    match &out[1] {
        Err(BridgeError::Backend(msg)) => assert_eq!(msg, "database is locked"),
        other => panic!("expected the backend failure, got {:?}", other),
    }
}

#[test]
fn fetch_optional_of_zero_rows_is_none() {
    let cols = two_columns();
    let events = vec![StreamEvent::Item(ConcreteItem::Summary(ConcreteSummary {
        rows_affected: 0,
        last_insert_rowid: 0,
    }))];
    assert_eq!(fetch_optional_scan(&cols, events), Ok(None));
    assert_eq!(fetch_optional_scan(&cols, Vec::new()), Ok(None));
}

#[test]
fn fetch_optional_takes_exactly_the_first_row() {
    let cols = two_columns();
    let events = vec![
        StreamEvent::Item(ConcreteItem::Summary(ConcreteSummary {
            rows_affected: 0,
            last_insert_rowid: 0,
        })),
        StreamEvent::Item(ConcreteItem::Row(row(vec![
            ConcreteValue::Int(1),
            ConcreteValue::Text(String::from("first")),
        ]))),
        StreamEvent::Item(ConcreteItem::Row(row(vec![
            ConcreteValue::Int(2),
            ConcreteValue::Text(String::from("second")),
        ]))),
    ];
    let got = fetch_optional_scan(&cols, events).unwrap();
    assert_eq!(
        got,
        Some(ErasedRow {
            values: vec![ErasedValue::Integer(1), ErasedValue::Text(String::from("first"))],
        })
    );
}

#[test]
fn fetch_optional_surfaces_a_failure_met_before_any_row() {
    let cols = two_columns();
    let events = vec![StreamEvent::Failure(String::from("worker gone"))];
    assert_eq!(
        fetch_optional_scan(&cols, events),
        Err(BridgeError::Backend(String::from("worker gone")))
    );
}

#[test]
fn prepare_ignores_parameter_type_hints() {
    let stmt = ConcreteStatement { columns: two_columns(), parameters: 2 };
    let no_hints: Vec<ErasedKind> = Vec::new();
    let hints = vec![ErasedKind::Blob, ErasedKind::Real];
    let a = to_erased_statement(String::from("SELECT ?"), &no_hints, &stmt).unwrap();
    let b = to_erased_statement(String::from("SELECT ?"), &hints, &stmt).unwrap();
    assert_eq!(a, b);
    assert_eq!(a.parameters, 2);
    assert_eq!(a.columns.len(), 2);
    assert_eq!(a.columns[0].kind, ErasedKind::Integer);
    assert_eq!(a.columns[1].kind, ErasedKind::Text);
}

#[test]
fn describe_fails_on_an_unbridgeable_column() {
    let d = ConcreteDescribe {
        columns: vec![ConcreteColumn {
            ordinal: 0,
            name: String::from("stamp"),
            type_info: DataType::Datetime,
        }],
        nullable: vec![Some(true)],
        parameters: 0,
    };
    match to_erased_describe(d) {
        Err(BridgeError::ColumnDecode { index, message }) => {
            assert_eq!(index, "stamp");
            assert_eq!(message, "Datetime");
        },
        other => panic!("expected a column-decode error, got {:?}", other),
    }
}

#[test]
fn connect_options_preserve_logging_verbatim() {
    let erased = ErasedConnectOptions {
        database_url: String::from("sqlite://data.db?mode=ro"),
        log_settings: LogSettings {
            statements_level: LogLevel::Debug,
            slow_statements_level: LogLevel::Warn,
            slow_statements_duration_ms: 1200,
        },
    };
    let concrete = derive_connect_options(&erased);
    assert_eq!(concrete.url, "sqlite://data.db?mode=ro");
    assert_eq!(concrete.log_settings, erased.log_settings);
}

#[test]
fn backend_name_is_sqlite() {
    assert_eq!(any_bridge::adapter::backend_name(), "SQLite");
}

#[test]
fn a_row_that_fails_to_decode_ends_the_sequence_with_its_error() {
    let cols = two_columns();
    let events = vec![
        StreamEvent::Item(ConcreteItem::Row(row(vec![
            ConcreteValue::Text(String::from("not an int")),
            ConcreteValue::Text(String::from("x")),
        ]))),
        StreamEvent::Item(ConcreteItem::Row(row(vec![
            ConcreteValue::Int(2),
            ConcreteValue::Text(String::from("y")),
        ]))),
    ];
    let out = project_events(&cols, events);
    assert_eq!(out.len(), 1);
    match &out[0] {
        Err(BridgeError::ColumnDecode { index, .. }) => assert_eq!(index, "id"),
        other => panic!("expected a column-decode error, got {:?}", other),
    }
}

#[test]
fn fetch_optional_reports_a_first_row_that_fails_to_decode() {
    let cols = two_columns();
    let events = vec![StreamEvent::Item(ConcreteItem::Row(row(vec![
        ConcreteValue::Int(1),
        ConcreteValue::Blob(vec![1, 2]),
    ])))];
    match fetch_optional_scan(&cols, events) {
        Err(BridgeError::ColumnDecode { index, message }) => {
            assert_eq!(index, "label");
            assert_eq!(message, "value does not fit the column type");
        },
        other => panic!("expected a column-decode error, got {:?}", other),
    }
}
