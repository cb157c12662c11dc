use ecsdb::query::ir::{FilterExpression, SqlFragment, Where};
use ecsdb::query::rename::rename_text;
use ecsdb::text::{numbered_placeholder, push_decimal};
use ecsdb::StoreValue;

fn text(s: &str) -> StoreValue {
    StoreValue::Text(s.to_string())
}

#[test]
fn decimal_numerals() {
    for (n, numeral) in [
        (0u128, "0"),
        (7, "7"),
        (10, "10"),
        (109, "109"),
        (1234567890, "1234567890"),
        (u128::MAX, "340282366920938463463374607431768211455"),
    ] {
        let mut out = "n=".to_string();
        push_decimal(&mut out, n);
        assert_eq!(out, format!("n={numeral}"));
        assert_eq!(numbered_placeholder(n), format!(":{numeral}"));
    }
}

#[test]
fn renaming_a_leaf_gives_what_a_combination_renders() {
    let leaves = vec![
        FilterExpression::entity(3),
        FilterExpression::with_component("a"),
        FilterExpression::without_component("a"),
        FilterExpression::with_component_data("a", text("1")),
        FilterExpression::with_component_data("a", StoreValue::Null),
        FilterExpression::WithComponentDataRange {
            component: "a".to_string(),
            start: text("1"),
            end: text("2"),
        },
        FilterExpression::WithComponentDataRange {
            component: "a".to_string(),
            start: StoreValue::Null,
            end: text("2"),
        },
        FilterExpression::none(),
    ];
    let mut counter = 0u128;
    let mut sqls = Vec::new();
    let mut placeholders = Vec::new();
    for leaf in &leaves {
        if leaf.is_none() {
            continue;
        }
        let renamed = leaf.where_clause().rename_identifier(&mut counter);
        sqls.push(renamed.sql);
        placeholders.extend(renamed.placeholders);
    }
    let combined = FilterExpression::combine_exprs("and", &leaves);
    assert_eq!(combined.sql, format!("({})", sqls.join(" and ")));
    assert_eq!(combined.placeholders, placeholders);
    assert_eq!(counter, placeholders.len() as u128);
    assert_eq!(counter, 11);
}

fn pairs(renames: &[(&str, &str)]) -> Vec<(String, String)> {
    renames
        .iter()
        .map(|(old, new)| (old.to_string(), new.to_string()))
        .collect()
}

#[test]
fn two_names_can_change_places() {
    let fragment: SqlFragment<Where> = SqlFragment::new(
        "a = ?1 and b = ?2",
        vec![("?1", StoreValue::Integer(1)), ("?2", StoreValue::Integer(2))],
    );
    let renamed = fragment.rename_by(&pairs(&[("?1", "?2"), ("?2", "?1")]));
    assert_eq!(renamed.sql, "a = ?2 and b = ?1");
    assert_eq!(
        renamed.placeholders,
        vec![
            ("?2".to_string(), StoreValue::Integer(1)),
            ("?1".to_string(), StoreValue::Integer(2)),
        ]
    );
}

#[test]
fn renaming_by_pairs() {
    let renames = pairs(&[(":a", ":b"), ("?1", ":a"), (":a", ":c")]);
    assert_eq!(
        rename_text("x = :a or y = ?1 or z = :ab or w = ?", &renames),
        "x = :c or y = :a or z = :ab or w = ?"
    );
    assert_eq!(rename_text("", &renames), "");
    assert_eq!(rename_text("x = :a", &vec![]), "x = :a");

    let fragment: SqlFragment<Where> =
        SqlFragment::new("x = :a and y = :z", vec![(":a", StoreValue::Null), (":z", text("z"))]);
    let renamed = fragment.rename_by(&renames);
    assert_eq!(renamed.sql, "x = :c and y = :z");
    assert_eq!(
        renamed.placeholders,
        vec![(":c".to_string(), StoreValue::Null), (":z".to_string(), text("z"))]
    );
}

#[test]
fn renaming_takes_placeholders_whole() {
    let names: Vec<String> = (1..=12).map(|n| format!(":{n}")).collect();
    let sql = names.join(", ");
    let fragment: SqlFragment<Where> = SqlFragment::new(
        &sql,
        names
            .iter()
            .map(|name| (name.as_str(), StoreValue::Null))
            .collect(),
    );
    let mut counter = 100;
    let renamed = fragment.rename_identifier(&mut counter);
    let expected: Vec<String> = (101..=112).map(|n| format!(":{n}")).collect();
    assert_eq!(renamed.sql, expected.join(", "));
    assert_eq!(
        renamed
            .placeholders
            .iter()
            .map(|(name, _)| name.clone())
            .collect::<Vec<_>>(),
        expected
    );
    assert_eq!(counter, 112);
}

#[test]
fn renaming_leaves_other_text_alone() {
    let fragment: SqlFragment<Where> = SqlFragment::new(
        "a = ?1 and b = ?10 and c = :x and d = ?1x and e = '?' and f = ?1",
        vec![("?1", StoreValue::Integer(1))],
    );
    let mut counter = 4;
    let renamed = fragment.rename_identifier(&mut counter);
    assert_eq!(
        renamed.sql,
        "a = :5 and b = ?10 and c = :x and d = ?1x and e = '?' and f = :5"
    );
    assert_eq!(
        renamed.placeholders,
        vec![(":5".to_string(), StoreValue::Integer(1))]
    );
    assert_eq!(counter, 5);

    let empty: SqlFragment<Where> = SqlFragment::new("true", vec![]);
    let renamed = empty.rename_identifier(&mut counter);
    assert_eq!(renamed.sql, "true");
    assert_eq!(counter, 5);
}

#[test]
fn a_name_that_stands_twice_takes_the_later_number() {
    let fragment: SqlFragment<Where> = SqlFragment::new(
        "x = ?1 or y = ?1",
        vec![("?1", StoreValue::Integer(1)), ("?1", StoreValue::Integer(2))],
    );
    let mut counter = 0;
    let renamed = fragment.rename_identifier(&mut counter);
    assert_eq!(renamed.sql, "x = :2 or y = :2");
    assert_eq!(
        renamed.placeholders,
        vec![
            (":2".to_string(), StoreValue::Integer(1)),
            (":2".to_string(), StoreValue::Integer(2)),
        ]
    );
    assert_eq!(counter, 2);
}

#[test]
fn a_bare_name_is_renamed_in_the_text() {
    let fragment: SqlFragment<Where> =
        SqlFragment::new("a = x", vec![("x", StoreValue::Integer(1))]);
    let mut counter = 0;
    let renamed = fragment.rename_identifier(&mut counter);
    assert_eq!(renamed.sql, "a = :1");
    assert_eq!(
        renamed.placeholders,
        vec![(":1".to_string(), StoreValue::Integer(1))]
    );
    assert_eq!(counter, 1);
}

#[test]
fn names_with_other_marks_are_renamed_in_the_text() {
    let fragment: SqlFragment<Where> = SqlFragment::new(
        "a = @p and b = $2 and c = @pp and d = $20 and e = @p",
        vec![("@p", text("p")), ("$2", StoreValue::Integer(2))],
    );
    let mut counter = 7;
    let renamed = fragment.rename_identifier(&mut counter);
    assert_eq!(
        renamed.sql,
        "a = :8 and b = :9 and c = @pp and d = $20 and e = :8"
    );
    assert_eq!(
        renamed.placeholders,
        vec![
            (":8".to_string(), text("p")),
            (":9".to_string(), StoreValue::Integer(2)),
        ]
    );
    assert_eq!(counter, 9);
}

#[test]
fn a_bare_name_is_renamed_only_where_it_stands_whole() {
    let renames = pairs(&[("x", ":1")]);
    assert_eq!(
        rename_text("xy = x and ax = x_1 and :x = x and (x)=x", &renames),
        "xy = :1 and ax = x_1 and :x = :1 and (:1)=:1"
    );
    assert_eq!(rename_text("x", &renames), ":1");
    assert_eq!(rename_text("x1", &renames), "x1");
    assert_eq!(rename_text("1x", &renames), "1x");
    assert_eq!(rename_text("x:x", &renames), ":1:x");
}

#[test]
fn any_text_can_be_a_name() {
    assert_eq!(rename_text("f(#) + #", &pairs(&[("#", "?")])), "f(?) + ?");
    assert_eq!(rename_text("a b c", &pairs(&[("a b", "z")])), "z c");
    assert_eq!(rename_text("ab", &pairs(&[("", "z")])), "ab");
    assert_eq!(rename_text("a = é", &pairs(&[("é", ":e")])), "a = :e");
}

#[test]
fn of_two_names_at_one_place_the_later_of_the_list_counts() {
    assert_eq!(rename_text("a <= b", &pairs(&[("<", "lt"), ("<=", "le")])), "a le b");
    assert_eq!(rename_text("a <= b", &pairs(&[("<=", "le"), ("<", "lt")])), "a lt= b");
}

#[test]
fn what_was_written_is_not_renamed_again() {
    assert_eq!(
        rename_text("x, y, z", &pairs(&[("x", "y"), ("y", "z"), ("z", "x")])),
        "y, z, x"
    );
}
