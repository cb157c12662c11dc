use ecsdb::sqlite_ext::{extract_ordinal, JsonScalar, EXTRACT_ORDINAL};
use ecsdb::StoreValue;

fn text(s: &str) -> StoreValue {
    StoreValue::Text(s.to_string())
}

#[test]
fn plain_values_are_their_own_ordinals() {
    assert_eq!(extract_ordinal(&StoreValue::Null), Ok(StoreValue::Null));
    assert_eq!(
        extract_ordinal(&StoreValue::Integer(-3)),
        Ok(StoreValue::Integer(-3))
    );
    let bits = 2.5f64.to_bits();
    assert_eq!(
        extract_ordinal(&StoreValue::Real(bits)),
        Ok(StoreValue::Real(bits))
    );
}

#[test]
fn a_blob_has_the_ordinal_null() {
    assert_eq!(
        extract_ordinal(&StoreValue::Blob(b"10".to_vec())),
        Ok(StoreValue::Null)
    );
}

#[test]
fn text_has_the_ordinal_of_its_json() {
    assert_eq!(extract_ordinal(&text("null")), Ok(StoreValue::Null));
    assert_eq!(extract_ordinal(&text("true")), Ok(StoreValue::Integer(1)));
    assert_eq!(extract_ordinal(&text("false")), Ok(StoreValue::Integer(0)));
    assert_eq!(extract_ordinal(&text("10")), Ok(StoreValue::Integer(10)));
    assert_eq!(extract_ordinal(&text(" -2 ")), Ok(StoreValue::Integer(-2)));
    assert_eq!(
        extract_ordinal(&text("9223372036854775807")),
        Ok(StoreValue::Integer(i64::MAX))
    );
    assert_eq!(
        extract_ordinal(&text("1.5")),
        Ok(StoreValue::Real(1.5f64.to_bits()))
    );
    assert_eq!(
        extract_ordinal(&text("18446744073709551615")),
        Ok(StoreValue::Real((u64::MAX as f64).to_bits()))
    );
    assert_eq!(extract_ordinal(&text("\"abc\"")), Ok(text("abc")));
    assert_eq!(extract_ordinal(&text("\"a\\n\\u00e9\"")), Ok(text("a\né")));
    assert_eq!(extract_ordinal(&text("[1, 2,\n3]")), Ok(text("[1,2,3]")));
    assert_eq!(
        extract_ordinal(&text("{ \"b\": 1, \"a\": [true] }")),
        Ok(text("{\"a\":[true],\"b\":1}"))
    );
}

#[test]
fn text_that_is_not_json_has_no_ordinal() {
    for invalid in ["", "{", "abc", "1 2", "'a'"] {
        assert!(extract_ordinal(&text(invalid)).is_err());
    }
}

#[test]
fn json_scalars_and_their_ordinals() {
    assert_eq!(JsonScalar::Null.ordinal(), StoreValue::Null);
    assert_eq!(JsonScalar::Bool(true).ordinal(), StoreValue::Integer(1));
    assert_eq!(JsonScalar::Bool(false).ordinal(), StoreValue::Integer(0));
    let both = JsonScalar::Number {
        integer: Some(4),
        real: Some(4.0f64.to_bits()),
    };
    assert!(both.is_ordered());
    assert_eq!(both.ordinal(), StoreValue::Integer(4));
    let real = JsonScalar::Number {
        integer: None,
        real: Some(0.25f64.to_bits()),
    };
    assert_eq!(real.ordinal(), StoreValue::Real(0.25f64.to_bits()));
    let neither = JsonScalar::Number {
        integer: None,
        real: None,
    };
    assert!(!neither.is_ordered());
    assert_eq!(
        JsonScalar::String("s".to_string()).ordinal(),
        text("s")
    );
    assert_eq!(
        JsonScalar::Composite("[]".to_string()).ordinal(),
        text("[]")
    );
}

#[test]
fn the_function_has_the_name_that_range_conditions_call() {
    assert_eq!(EXTRACT_ORDINAL, "extract_ordinal");
    let range = ecsdb::query::ir::FilterExpression::WithComponentDataRange {
        component: "c".to_string(),
        start: text("1"),
        end: StoreValue::Null,
    };
    assert!(range
        .where_clause()
        .sql
        .contains(&format!("{EXTRACT_ORDINAL}(data) >= {EXTRACT_ORDINAL}(?2)")));
}
