use odbc_bind::bind_types::{CDataType, ScalarKind, SqlDataType};
use odbc_bind::binder::{traverse, try_byte_size, try_ordinal_count, Descriptor};
use odbc_bind::col_binder::bind_cols;
use odbc_bind::error::{Error, OdbcResult, SQL_ERROR, SQL_NO_DATA, SQL_SUCCESS, SQL_SUCCESS_WITH_INFO};
use odbc_bind::nullable::{Nullable, SQL_NULL_DATA};
use odbc_bind::param_binder::bind_params;
use odbc_bind::text::Text;
use odbc_bind::value::{Scalar, Value};

fn all_scalars() -> Vec<Scalar> {
    vec![
        Scalar::I8(-1),
        Scalar::I16(-2),
        Scalar::I32(-3),
        Scalar::I64(-4),
        Scalar::U8(1),
        Scalar::U16(2),
        Scalar::U32(3),
        Scalar::U64(4),
        Scalar::Bool(true),
    ]
}

fn expected_codes(kind: ScalarKind) -> (CDataType, SqlDataType, usize) {
    match kind {
        ScalarKind::I8 => (CDataType::STinyInt, SqlDataType::TinyInt, 1),
        ScalarKind::I16 => (CDataType::SShort, SqlDataType::SmallInt, 2),
        ScalarKind::I32 => (CDataType::SLong, SqlDataType::Integer, 4),
        ScalarKind::I64 => (CDataType::SBigInt, SqlDataType::BigInt, 8),
        ScalarKind::U8 => (CDataType::UTinyInt, SqlDataType::TinyInt, 1),
        ScalarKind::U16 => (CDataType::UShort, SqlDataType::SmallInt, 2),
        ScalarKind::U32 => (CDataType::ULong, SqlDataType::Integer, 4),
        ScalarKind::U64 => (CDataType::UBigInt, SqlDataType::BigInt, 8),
        ScalarKind::F32 => (CDataType::Float, SqlDataType::Float, 4),
        ScalarKind::F64 => (CDataType::Double, SqlDataType::Double, 8),
        ScalarKind::Bool => (CDataType::Bit, SqlDataType::TinyInt, 1),
    }
}

#[test]
fn every_scalar_kind_emits_one_descriptor_with_table_codes() {
    for s in all_scalars() {
        let kind = s.kind();
        let (c_type, sql_type, size) = expected_codes(kind);
        let descs = traverse(&Value::Scalar(s), 0).unwrap();
        assert_eq!(1, descs.len());
        match descs[0] {
            Descriptor::Scalar { kind: k, offset, indicator } => {
                assert_eq!(kind, k);
                assert_eq!(0, offset);
                assert_eq!(None, indicator);
            },
            _ => panic!("scalar emitted a text descriptor"),
        }
        let cols = bind_cols(&descs);
        assert_eq!(1, cols.len());
        assert_eq!(1, cols[0].ordinal);
        assert_eq!(c_type, cols[0].c_type);
        assert_eq!(size, cols[0].buffer_len);
        let params = bind_params(&descs);
        assert_eq!(1, params.len());
        assert_eq!(1, params[0].ordinal);
        assert_eq!(c_type, params[0].c_type);
        assert_eq!(sql_type, params[0].sql_type);
        assert_eq!(size, params[0].buffer_len);
    }
}

#[test]
fn float_kinds_have_table_entries() {
    assert_eq!(CDataType::Float, ScalarKind::F32.c_data_type());
    assert_eq!(SqlDataType::Float, ScalarKind::F32.data_type());
    assert_eq!(4, ScalarKind::F32.size());
    assert_eq!(CDataType::Double, ScalarKind::F64.c_data_type());
    assert_eq!(SqlDataType::Double, ScalarKind::F64.data_type());
    assert_eq!(8, ScalarKind::F64.size());
}

#[test]
fn declaration_order_gives_ordinals() {
    let record = Value::Record(vec![
        Value::Scalar(Scalar::I32(7)),
        Value::Tuple(vec![Value::Scalar(Scalar::Bool(false)), Value::Scalar(Scalar::U64(9))]),
        Value::Scalar(Scalar::I8(1)),
    ]);
    let descs = traverse(&record, 0).unwrap();
    assert_eq!(4, descs.len());
    let kinds: Vec<ScalarKind> = descs
        .iter()
        .map(|d| match d {
            Descriptor::Scalar { kind, .. } => *kind,
            _ => panic!("unexpected text descriptor"),
        })
        .collect();
    assert_eq!(vec![ScalarKind::I32, ScalarKind::Bool, ScalarKind::U64, ScalarKind::I8], kinds);
    let cols = bind_cols(&descs);
    for (i, c) in cols.iter().enumerate() {
        assert_eq!((i + 1) as u16, c.ordinal);
    }
    // fields are laid out one after another: 4 bytes, then 1 + 8, then 1
    let offsets: Vec<usize> = descs
        .iter()
        .map(|d| match d {
            Descriptor::Scalar { offset, .. } => *offset,
            _ => 0,
        })
        .collect();
    assert_eq!(vec![0, 4, 5, 13], offsets);
}

#[test]
fn composites_without_primitives_emit_nothing() {
    let empty = Value::Record(vec![]);
    assert_eq!(0, traverse(&empty, 0).unwrap().len());
    let nested = Value::Tuple(vec![Value::Record(vec![]), Value::Tuple(vec![])]);
    assert_eq!(0, traverse(&nested, 0).unwrap().len());
}

#[test]
fn text_descriptor_carries_current_length_and_capacity() {
    let mut t = Text::new(16);
    t.extend_from_slice(b"hello");
    let descs = traverse(&Value::Text(t), 0).unwrap();
    assert_eq!(1, descs.len());
    match descs[0] {
        Descriptor::Text { len, capacity, offset, indicator } => {
            assert_eq!(5, len);
            assert_eq!(16, capacity);
            assert_eq!(0, indicator);
            assert_eq!(8, offset);
        },
        _ => panic!("text emitted a scalar descriptor"),
    }
    // columns are pre-sized for worst-case content plus a terminator byte;
    // parameters describe only what will be read
    let cols = bind_cols(&descs);
    assert_eq!(CDataType::Char, cols[0].c_type);
    assert_eq!(17, cols[0].buffer_len);
    let params = bind_params(&descs);
    assert_eq!(CDataType::Char, params[0].c_type);
    assert_eq!(SqlDataType::Varchar, params[0].sql_type);
    assert_eq!(5, params[0].column_size);
    assert_eq!(5, params[0].buffer_len);
}

#[test]
fn nullable_stashes_indicator_for_inner_primitive() {
    let n = Nullable::present(Scalar::I32(42));
    let descs = traverse(&Value::Nullable(n), 0).unwrap();
    assert_eq!(1, descs.len());
    match descs[0] {
        Descriptor::Scalar { kind, offset, indicator } => {
            assert_eq!(ScalarKind::I32, kind);
            assert_eq!(8, offset);
            assert_eq!(Some(0), indicator);
        },
        _ => panic!("nullable scalar emitted a text descriptor"),
    }
}

#[test]
fn nullable_indicator_encodes_absence_and_size() {
    let absent = Nullable::null(Scalar::I32(0));
    assert_eq!(SQL_NULL_DATA, absent.indicator);
    assert!(absent.as_ref().is_none());

    let present = Nullable::present(Scalar::I32(42));
    assert_eq!(4, present.indicator);
    assert_eq!(Some(&Value::Scalar(Scalar::I32(42))), present.as_ref());

    let wide = Nullable::present(Scalar::U64(1));
    assert_eq!(8, wide.indicator);

    let from_none = Nullable::from_option(None, Scalar::I16(0));
    assert_eq!(SQL_NULL_DATA, from_none.indicator);
    assert_eq!(None, from_none.into_option());

    let from_some = Nullable::from_option(Some(Scalar::I16(-5)), Scalar::I16(0));
    assert_eq!(2, from_some.indicator);
    assert_eq!(Some(Value::Scalar(Scalar::I16(-5))), from_some.into_option());
}

#[test]
fn nullable_around_composite_is_a_structural_error() {
    let bad = Value::Nullable(Nullable {
        indicator: SQL_NULL_DATA,
        value: Box::new(Value::Tuple(vec![Value::Scalar(Scalar::I32(0))])),
    });
    assert_eq!(Err(Error::StructuralError), traverse(&bad, 0));
    let nested = Value::Record(vec![
        Value::Scalar(Scalar::I32(1)),
        Value::Nullable(Nullable {
            indicator: SQL_NULL_DATA,
            value: Box::new(Value::Record(vec![])),
        }),
    ]);
    assert_eq!(Err(Error::StructuralError), traverse(&nested, 0));
}

#[test]
fn return_code_check_maps_success_and_failure() {
    assert_eq!(Ok(()), SQL_SUCCESS.check());
    assert_eq!(Ok(()), SQL_SUCCESS_WITH_INFO.check());
    assert_eq!(Ok(()), SQL_NO_DATA.check());
    assert_eq!(Err(Error::Odbc(SQL_ERROR)), SQL_ERROR.check());
    assert_eq!(Err(Error::Odbc(7)), 7i16.check());
}

#[test]
fn limit_helpers_match_traversal() {
    let mut t = Text::new(16);
    t.extend_from_slice(b"abc");
    let v = Value::Record(vec![
        Value::Scalar(Scalar::I32(1)),
        Value::Text(t),
        Value::Nullable(Nullable::present(Scalar::U16(7))),
        Value::Tuple(vec![]),
    ]);
    // 4 + (8 + 16) + (8 + 2) + 0 bytes
    assert_eq!(Some(38), try_byte_size(&v));
    assert_eq!(Some(3), try_ordinal_count(&v));
    assert_eq!(3, traverse(&v, 0).unwrap().len());
}
