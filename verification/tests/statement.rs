use odbc_bind::bind_types::{CDataType, SqlDataType};
use odbc_bind::col_binding::{Cols, NoCols, RowSet};
use odbc_bind::driver::{exec_echo, exec_insert, fetch_all};
use odbc_bind::error::{Error, SQL_ERROR, SQL_NO_DATA, SQL_SUCCESS};
use odbc_bind::nullable::Nullable;
use odbc_bind::param_binding::{NoParams, ParamSet, Params};
use odbc_bind::statement::{ColBinding, ParamBinding, Statement};
use odbc_bind::text::Text;
use odbc_bind::value::{Scalar, Value};

fn i32_value(v: i32) -> Value {
    Value::Scalar(Scalar::I32(v))
}

fn single_i32_statement(v: i32) -> Statement {
    Statement::new(
        ParamBinding::Single(Params::new(i32_value(v))),
        ColBinding::Single(Cols::new(i32_value(0))),
    )
}

fn cols_value(stmt: &Statement) -> &Value {
    match &stmt.cols {
        ColBinding::Single(c) => c.cols(),
        _ => panic!("expected a single-record column binding"),
    }
}

#[test]
fn exec_stmt() {
    let mut stmt = single_i32_statement(42);
    exec_echo(&mut stmt).unwrap();
    assert!(stmt.fetch_done(SQL_SUCCESS, 0).unwrap());
    assert_eq!(&Value::Scalar(Scalar::I32(42)), cols_value(&stmt));
    assert!(!stmt.fetch_done(SQL_NO_DATA, 0).unwrap());
}

#[test]
fn bind_nullable_param() {
    let mut stmt = Statement::new(
        ParamBinding::Single(Params::new(Value::Nullable(Nullable::from_option(
            Some(Scalar::I32(42)),
            Scalar::I32(0),
        )))),
        ColBinding::Single(Cols::new(Value::Nullable(Nullable::null(Scalar::I32(0))))),
    );
    exec_echo(&mut stmt).unwrap();
    assert!(stmt.fetch_done(SQL_SUCCESS, 0).unwrap());
    match cols_value(&stmt) {
        Value::Nullable(n) => {
            assert_eq!(Some(&Value::Scalar(Scalar::I32(42))), n.as_ref());
        },
        _ => panic!("expected a nullable column"),
    }
    assert!(!stmt.fetch_done(SQL_NO_DATA, 0).unwrap());
}

#[test]
fn bind_nullable_col() {
    let mut stmt = Statement::new(
        ParamBinding::Single(Params::new(Value::Nullable(Nullable::present(Scalar::I32(42))))),
        ColBinding::Single(Cols::new(Value::Nullable(Nullable::null(Scalar::I32(0))))),
    );
    exec_echo(&mut stmt).unwrap();
    assert!(stmt.fetch_done(SQL_SUCCESS, 0).unwrap());
    match cols_value(&stmt) {
        Value::Nullable(n) => {
            assert_eq!(4, n.indicator);
            assert_eq!(Some(&Value::Scalar(Scalar::I32(42))), n.as_ref());
        },
        _ => panic!("expected a nullable column"),
    }
    assert!(!stmt.fetch_done(SQL_NO_DATA, 0).unwrap());
}

#[test]
fn bind_str() {
    let mut input = Text::new(8);
    input.extend_from_slice(b"foobarfoobar");
    let mut stmt = Statement::new(
        ParamBinding::Single(Params::new(Value::Text(input))),
        ColBinding::Single(Cols::new(Value::Text(Text::new(8)))),
    );
    exec_echo(&mut stmt).unwrap();
    assert!(stmt.fetch_done(SQL_SUCCESS, 0).unwrap());
    match cols_value(&stmt) {
        Value::Text(t) => assert_eq!(&b"foobarfo"[..], t.as_slice()),
        _ => panic!("expected a text column"),
    }
    assert!(!stmt.fetch_done(SQL_NO_DATA, 0).unwrap());
}

#[test]
fn round_trip_every_scalar_kind() {
    let values = vec![
        Scalar::I8(-8),
        Scalar::I16(-16),
        Scalar::I32(-32),
        Scalar::I64(-64),
        Scalar::U8(8),
        Scalar::U16(16),
        Scalar::U32(32),
        Scalar::U64(64),
        Scalar::Bool(true),
    ];
    for s in values {
        let mut stmt = Statement::new(
            ParamBinding::Single(Params::new(Value::Scalar(s))),
            ColBinding::Single(Cols::new(Value::Scalar(match s {
                Scalar::I8(_) => Scalar::I8(0),
                Scalar::I16(_) => Scalar::I16(0),
                Scalar::I32(_) => Scalar::I32(0),
                Scalar::I64(_) => Scalar::I64(0),
                Scalar::U8(_) => Scalar::U8(0),
                Scalar::U16(_) => Scalar::U16(0),
                Scalar::U32(_) => Scalar::U32(0),
                Scalar::U64(_) => Scalar::U64(0),
                Scalar::Bool(_) => Scalar::Bool(false),
            }))),
        );
        exec_echo(&mut stmt).unwrap();
        assert!(stmt.fetch_done(SQL_SUCCESS, 0).unwrap());
        assert_eq!(&Value::Scalar(s), cols_value(&stmt));
    }
}

#[test]
fn round_trip_text_up_to_capacity() {
    for len in 0..=8usize {
        let bytes = vec![b'x'; len];
        let mut input = Text::new(8);
        input.extend_from_slice(&bytes);
        let mut stmt = Statement::new(
            ParamBinding::Single(Params::new(Value::Text(input))),
            ColBinding::Single(Cols::new(Value::Text(Text::new(8)))),
        );
        exec_echo(&mut stmt).unwrap();
        assert!(stmt.fetch_done(SQL_SUCCESS, 0).unwrap());
        match cols_value(&stmt) {
            Value::Text(t) => assert_eq!(&bytes[..], t.as_slice()),
            _ => panic!("expected a text column"),
        }
    }
}

#[test]
fn bind_row_set() {
    // a result set of 128 rows read through a row set of capacity 32:
    // four full fetches, then exhaustion
    let mut stmt = Statement::new(
        ParamBinding::Empty(NoParams::new()),
        ColBinding::Rows(RowSet::new(i32_value(0))),
    );
    stmt.set_fetch_size(32);
    assert!(32 == stmt.fetch_size());
    let plan = stmt.begin_exec().unwrap();
    assert!(!plan.close_cursor);
    stmt.exec_done(SQL_SUCCESS).unwrap();
    for i in 0..4i32 {
        match &mut stmt.cols {
            ColBinding::Rows(c) => {
                for j in 0..32i32 {
                    c.set_row(j as usize, i32_value(32 * i + j));
                }
            },
            _ => panic!("expected a row-set column binding"),
        }
        assert!(stmt.fetch_done(SQL_SUCCESS, 32).unwrap());
        match &stmt.cols {
            ColBinding::Rows(c) => {
                assert_eq!(32, c.cols().len());
                for (j, v) in c.cols().iter().enumerate() {
                    assert_eq!(&i32_value(32 * i + j as i32), v);
                }
            },
            _ => panic!("expected a row-set column binding"),
        }
    }
    assert!(!stmt.fetch_done(SQL_NO_DATA, 0).unwrap());

    // the same 128 rows through a row set of capacity 256: one fetch of 128
    let mut stmt = Statement::new(
        ParamBinding::Empty(NoParams::new()),
        ColBinding::Rows(RowSet::new(i32_value(0))),
    );
    stmt.set_fetch_size(256);
    assert!(256 == stmt.fetch_size());
    stmt.begin_exec().unwrap();
    stmt.exec_done(SQL_SUCCESS).unwrap();
    match &mut stmt.cols {
        ColBinding::Rows(c) => {
            for i in 0..128i32 {
                c.set_row(i as usize, i32_value(i));
            }
        },
        _ => panic!("expected a row-set column binding"),
    }
    assert!(stmt.fetch_done(SQL_SUCCESS, 128).unwrap());
    match &stmt.cols {
        ColBinding::Rows(c) => {
            assert_eq!(128, c.cols().len());
            for (i, v) in c.cols().iter().enumerate() {
                assert_eq!(&i32_value(i as i32), v);
            }
        },
        _ => panic!("expected a row-set column binding"),
    }
    assert!(!stmt.fetch_done(SQL_NO_DATA, 0).unwrap());
}

#[test]
fn fetch_counts_follow_capacity() {
    // 128 rows, capacity 32: four fetches of 32
    let mut stmt = Statement::with_fetch_size(
        ParamBinding::Empty(NoParams::new()),
        RowSet::new(i32_value(0)),
        32,
    );
    assert_eq!(vec![32usize; 4], fetch_all(&mut stmt, 128).unwrap());

    // 128 rows, capacity 256: one fetch of 128
    let mut stmt = Statement::with_fetch_size(
        ParamBinding::Empty(NoParams::new()),
        RowSet::new(i32_value(0)),
        256,
    );
    assert_eq!(vec![128usize], fetch_all(&mut stmt, 128).unwrap());

    // a remainder fetch carries what is left
    let mut stmt = Statement::with_fetch_size(
        ParamBinding::Empty(NoParams::new()),
        RowSet::new(i32_value(0)),
        3,
    );
    assert_eq!(vec![3usize, 3, 1], fetch_all(&mut stmt, 7).unwrap());

    // an empty result set is exhausted at once
    let mut stmt = Statement::with_fetch_size(
        ParamBinding::Empty(NoParams::new()),
        RowSet::new(i32_value(0)),
        4,
    );
    assert_eq!(Vec::<usize>::new(), fetch_all(&mut stmt, 0).unwrap());
}

#[test]
fn bind_param_set() {
    let mut set = ParamSet::new(i32_value(0));
    for i in 0..128i32 {
        set.push(i32_value(i));
    }
    let mut stmt = Statement::new(
        ParamBinding::Batch(set),
        ColBinding::Empty(NoCols::new()),
    );
    let mut table: Vec<Value> = Vec::new();
    let affected = exec_insert(&mut stmt, &mut table).unwrap();
    assert_eq!(128, affected);
    assert_eq!(128, table.len());
    for (i, row) in table.iter().enumerate() {
        assert_eq!(&i32_value(i as i32), row);
    }
}

#[test]
fn rebind_is_skipped_while_storage_is_unchanged() {
    let mut stmt = single_i32_statement(1);
    let plan = stmt.begin_exec().unwrap();
    assert_eq!(1, plan.params.binds.len());
    assert_eq!(1, plan.params.binds[0].ordinal);
    assert_eq!(CDataType::SLong, plan.params.binds[0].c_type);
    assert_eq!(SqlDataType::Integer, plan.params.binds[0].sql_type);
    assert_eq!(1, plan.cols.binds.len());
    assert_eq!(1, plan.cols.binds[0].ordinal);
    assert_eq!(CDataType::SLong, plan.cols.binds[0].c_type);
    assert_eq!(4, plan.cols.binds[0].buffer_len);
    stmt.exec_done(SQL_SUCCESS).unwrap();

    // repopulating the record does not move its storage: no rebinding
    match &mut stmt.params {
        ParamBinding::Single(p) => p.set(i32_value(2)),
        _ => panic!("expected a single-record parameter binding"),
    }
    let plan = stmt.begin_exec().unwrap();
    assert_eq!(0, plan.params.binds.len());
    assert_eq!(0, plan.cols.binds.len());
    assert!(plan.params.attrs.is_none());
    assert!(plan.cols.attrs.is_none());
    stmt.exec_done(SQL_SUCCESS).unwrap();
}

#[test]
fn growing_the_row_set_forces_exactly_one_rebind() {
    let mut stmt = Statement::with_fetch_size(
        ParamBinding::Empty(NoParams::new()),
        RowSet::new(i32_value(0)),
        32,
    );
    let plan = stmt.begin_exec().unwrap();
    assert_eq!(1, plan.cols.binds.len());
    let attrs = plan.cols.attrs.unwrap();
    assert_eq!(32, attrs.array_size);
    assert_eq!(4, attrs.row_size);
    stmt.exec_done(SQL_SUCCESS).unwrap();

    // unchanged: no native bind calls at all
    let plan = stmt.begin_exec().unwrap();
    assert_eq!(0, plan.cols.binds.len());
    assert!(plan.cols.attrs.is_none());
    stmt.exec_done(SQL_SUCCESS).unwrap();

    // growing the buffer moves it: exactly one rebind, attributes reissued
    stmt.set_fetch_size(64);
    let plan = stmt.begin_exec().unwrap();
    assert_eq!(1, plan.cols.binds.len());
    assert_eq!(1, plan.cols.binds[0].ordinal);
    assert_eq!(CDataType::SLong, plan.cols.binds[0].c_type);
    assert_eq!(64, plan.cols.attrs.unwrap().array_size);
    stmt.exec_done(SQL_SUCCESS).unwrap();

    // and cached again afterwards
    let plan = stmt.begin_exec().unwrap();
    assert_eq!(0, plan.cols.binds.len());
    assert!(plan.cols.attrs.is_none());
}

#[test]
fn param_set_rebinds_after_growth_only() {
    let mut set = ParamSet::new(i32_value(0));
    set.push(i32_value(1));
    set.push(i32_value(2));
    let mut stmt = Statement::new(
        ParamBinding::Batch(set),
        ColBinding::Empty(NoCols::new()),
    );
    let plan = stmt.begin_exec().unwrap();
    assert_eq!(1, plan.params.binds.len());
    let attrs = plan.params.attrs.unwrap();
    assert_eq!(2, attrs.set_size);
    assert_eq!(4, attrs.row_size);
    stmt.exec_done(SQL_SUCCESS).unwrap();

    // writing a row in place does not move the block: no rebinding
    match &mut stmt.params {
        ParamBinding::Batch(p) => p.set_row(0, i32_value(9)),
        _ => panic!("expected a parameter-set binding"),
    }
    let plan = stmt.begin_exec().unwrap();
    assert_eq!(0, plan.params.binds.len());
    assert!(plan.params.attrs.is_none());
    stmt.exec_done(SQL_SUCCESS).unwrap();

    // appending may reallocate: rebind and reissue the set size
    match &mut stmt.params {
        ParamBinding::Batch(p) => p.push(i32_value(3)),
        _ => panic!("expected a parameter-set binding"),
    }
    let plan = stmt.begin_exec().unwrap();
    assert_eq!(1, plan.params.binds.len());
    assert_eq!(3, plan.params.attrs.unwrap().set_size);
}

#[test]
fn failed_execute_forces_a_rebind() {
    let mut stmt = single_i32_statement(1);
    stmt.begin_exec().unwrap();
    assert_eq!(Err(Error::Odbc(SQL_ERROR)), stmt.exec_done(SQL_ERROR));
    let plan = stmt.begin_exec().unwrap();
    assert_eq!(1, plan.params.binds.len());
    assert_eq!(1, plan.cols.binds.len());
}

#[test]
fn failed_fetch_reports_the_native_code() {
    let mut stmt = single_i32_statement(1);
    exec_echo(&mut stmt).unwrap();
    assert_eq!(Err(Error::Odbc(-2)), stmt.fetch_done(-2, 0));
}

#[test]
fn open_cursor_is_closed_before_the_next_execute() {
    let mut stmt = single_i32_statement(1);
    exec_echo(&mut stmt).unwrap();
    assert!(stmt.fetch_done(SQL_SUCCESS, 0).unwrap());
    let plan = stmt.begin_exec().unwrap();
    assert!(plan.close_cursor);
    stmt.exec_done(SQL_SUCCESS).unwrap();
    let plan = stmt.begin_exec().unwrap();
    assert!(!plan.close_cursor);
}

#[test]
fn unsupported_shape_fails_the_first_bind() {
    let bad = Value::Nullable(Nullable {
        indicator: 0,
        value: Box::new(Value::Tuple(vec![i32_value(0)])),
    });
    let mut stmt = Statement::new(
        ParamBinding::Single(Params::new(bad)),
        ColBinding::Single(Cols::new(i32_value(0))),
    );
    assert!(matches!(stmt.begin_exec(), Err(Error::StructuralError)));
}

#[test]
fn round_trip_nested_record() {
    let mut text = Text::new(8);
    text.extend_from_slice(b"rec");
    let params = Value::Record(vec![
        Value::Scalar(Scalar::I32(-7)),
        Value::Text(text),
        Value::Nullable(Nullable::present(Scalar::U16(9))),
        Value::Tuple(vec![Value::Scalar(Scalar::Bool(true)), Value::Scalar(Scalar::I64(5))]),
    ]);
    let cols = Value::Record(vec![
        Value::Scalar(Scalar::I32(0)),
        Value::Text(Text::new(8)),
        Value::Nullable(Nullable::null(Scalar::U16(0))),
        Value::Tuple(vec![Value::Scalar(Scalar::Bool(false)), Value::Scalar(Scalar::I64(0))]),
    ]);
    let expected = params.duplicate();
    let mut stmt = Statement::new(
        ParamBinding::Single(Params::new(params)),
        ColBinding::Single(Cols::new(cols)),
    );
    exec_echo(&mut stmt).unwrap();
    assert!(stmt.fetch_done(SQL_SUCCESS, 0).unwrap());
    assert_eq!(&expected, cols_value(&stmt));
    assert!(!stmt.fetch_done(SQL_NO_DATA, 0).unwrap());
}
