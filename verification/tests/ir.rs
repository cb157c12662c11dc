use ecsdb::query::ir::{FilterExpression, OrderBy, Query, SqlFragment, Where};
use ecsdb::StoreValue;

fn text(s: &str) -> StoreValue {
    StoreValue::Text(s.to_string())
}

fn named(names_and_values: Vec<(&str, StoreValue)>) -> Vec<(String, StoreValue)> {
    names_and_values
        .into_iter()
        .map(|(name, value)| (name.to_string(), value))
        .collect()
}

const WITH: &str = "entity in (select entity from components where component = ";
const WITHOUT: &str = "entity not in (select entity from components where component = ";

fn cases() -> Vec<FilterExpression> {
    vec![
        FilterExpression::none(),
        FilterExpression::with_component("ecsdb::Test"),
        FilterExpression::without_component("ecsdb::Test"),
        FilterExpression::entity(42),
        FilterExpression::and(vec![
            FilterExpression::with_component("ecsdb::Test"),
            FilterExpression::entity(42),
        ]),
        FilterExpression::and(vec![
            FilterExpression::with_component("ecsdb::Foo"),
            FilterExpression::without_component("ecsdb::Bar"),
        ]),
        FilterExpression::or(vec![
            FilterExpression::with_component("ecsdb::Test"),
            FilterExpression::entity(42),
        ]),
        FilterExpression::or(vec![
            FilterExpression::with_component("ecsdb::Foo"),
            FilterExpression::without_component("ecsdb::Bar"),
        ]),
        FilterExpression::or(vec![
            FilterExpression::and(vec![
                FilterExpression::entity(42),
                FilterExpression::with_component("ecsdb::Test"),
            ]),
            FilterExpression::and(vec![
                FilterExpression::entity(23),
                FilterExpression::with_component("ecsdb::Foo"),
                FilterExpression::without_component("ecsdb::Bar"),
            ]),
        ]),
    ]
}

fn expected() -> Vec<(String, Vec<(String, StoreValue)>)> {
    vec![
        ("true".to_string(), vec![]),
        (
            format!("{WITH}?1)"),
            named(vec![("?1", text("ecsdb::Test"))]),
        ),
        (
            format!("{WITHOUT}?1)"),
            named(vec![("?1", text("ecsdb::Test"))]),
        ),
        (
            "entity = ?1".to_string(),
            named(vec![("?1", StoreValue::Integer(42))]),
        ),
        (
            format!("({WITH}:1) and entity = :2)"),
            named(vec![(":1", text("ecsdb::Test")), (":2", StoreValue::Integer(42))]),
        ),
        (
            format!("({WITH}:1) and {WITHOUT}:2))"),
            named(vec![(":1", text("ecsdb::Foo")), (":2", text("ecsdb::Bar"))]),
        ),
        (
            format!("({WITH}:1) or entity = :2)"),
            named(vec![(":1", text("ecsdb::Test")), (":2", StoreValue::Integer(42))]),
        ),
        (
            format!("({WITH}:1) or {WITHOUT}:2))"),
            named(vec![(":1", text("ecsdb::Foo")), (":2", text("ecsdb::Bar"))]),
        ),
        (
            format!(
                "((entity = :1 and {WITH}:2)) or (entity = :3 and {WITH}:4) and {WITHOUT}:5)))"
            ),
            named(vec![
                (":1", StoreValue::Integer(42)),
                (":2", text("ecsdb::Test")),
                (":3", StoreValue::Integer(23)),
                (":4", text("ecsdb::Foo")),
                (":5", text("ecsdb::Bar")),
            ]),
        ),
    ]
}

#[test]
pub fn filter_expression_where_clause() {
    for (case, (sql, placeholders)) in cases().into_iter().zip(expected()) {
        let fragment = case.where_clause();
        assert_eq!(fragment.sql, sql);
        assert_eq!(fragment.placeholders, placeholders);
    }
}

#[test]
pub fn filter_expression_sql_query() {
    for (case, (sql, placeholders)) in cases().into_iter().zip(expected()) {
        let fragment = case.sql_query();
        assert_eq!(
            fragment.sql,
            format!("select distinct entity from components where {sql}")
        );
        assert_eq!(fragment.placeholders, placeholders);
    }
}

#[test]
fn into_sql_appends_the_order() {
    let ascending = Query {
        filter: FilterExpression::entity(7),
        order_by: OrderBy::Asc,
    };
    let (sql, placeholders) = ascending.into_sql();
    assert_eq!(
        sql,
        "select distinct entity from components where entity = ?1 order by entity asc"
    );
    assert_eq!(placeholders, named(vec![("?1", StoreValue::Integer(7))]));

    let descending = Query {
        filter: FilterExpression::none(),
        order_by: OrderBy::Desc,
    };
    let (sql, placeholders) = descending.into_sql();
    assert_eq!(
        sql,
        "select distinct entity from components where true order by entity desc"
    );
    assert!(placeholders.is_empty());
}

#[test]
fn empty_combinations_are_true() {
    let and = FilterExpression::and(vec![]).where_clause();
    assert_eq!(and.sql, "true");
    assert!(and.placeholders.is_empty());
    let or = FilterExpression::or(vec![]).where_clause();
    assert_eq!(or.sql, "true");
    let nested = FilterExpression::and(vec![
        FilterExpression::or(vec![]),
        FilterExpression::entity(1),
    ])
    .where_clause();
    assert_eq!(nested.sql, "(true and entity = :1)");
    let combined = FilterExpression::combine_exprs("and", &vec![]);
    assert_eq!(combined.sql, "true");
}

#[test]
fn combine_exprs_joins_by_the_given_word() {
    let members = vec![FilterExpression::entity(1), FilterExpression::entity(2)];
    let fragment = FilterExpression::combine_exprs("or", &members);
    assert_eq!(fragment.sql, "(entity = :1 or entity = :2)");
    assert_eq!(
        fragment.placeholders,
        named(vec![
            (":1", StoreValue::Integer(1)),
            (":2", StoreValue::Integer(2))
        ])
    );
}

#[test]
fn data_conditions_bind_name_and_value() {
    let by_value =
        FilterExpression::with_component_data("a::B", StoreValue::Text("1234".to_string()))
            .where_clause();
    assert_eq!(by_value.sql, format!("{WITH}?1 and data = ?2)"));
    assert_eq!(
        by_value.placeholders,
        named(vec![("?1", text("a::B")), ("?2", text("1234"))])
    );

    let by_null = FilterExpression::with_component_data("a::B", StoreValue::Null).where_clause();
    assert_eq!(by_null.sql, format!("{WITH}?1 and data is null)"));
    assert_eq!(by_null.placeholders, named(vec![("?1", text("a::B"))]));
}

fn range(start: StoreValue, end: StoreValue) -> FilterExpression {
    FilterExpression::WithComponentDataRange {
        component: "a::B".to_string(),
        start,
        end,
    }
}

#[test]
fn range_conditions_compare_ordinals() {
    let both = range(text("1"), text("5")).where_clause();
    assert_eq!(
        both.sql,
        format!(
            "{WITH}?component and extract_ordinal(data) between extract_ordinal(?2) and extract_ordinal(?3))"
        )
    );
    assert_eq!(
        both.placeholders,
        named(vec![
            ("?2", text("1")),
            ("?3", text("5")),
            ("?component", text("a::B"))
        ])
    );

    let from = range(text("1"), StoreValue::Null).where_clause();
    assert_eq!(
        from.sql,
        format!("{WITH}?component and extract_ordinal(data) >= extract_ordinal(?2))")
    );
    assert_eq!(
        from.placeholders,
        named(vec![("?2", text("1")), ("?component", text("a::B"))])
    );

    let to = range(StoreValue::Null, text("5")).where_clause();
    assert_eq!(
        to.sql,
        format!("{WITH}?component and extract_ordinal(data) <= extract_ordinal(?2))")
    );
    assert_eq!(
        to.placeholders,
        named(vec![("?2", text("5")), ("?component", text("a::B"))])
    );

    let neither = range(StoreValue::Null, StoreValue::Null).where_clause();
    assert_eq!(neither.sql, format!("{WITH}?component and data is null)"));
    assert_eq!(neither.placeholders, named(vec![("?component", text("a::B"))]));
}

#[test]
fn combined_ranges_are_numbered_in_binding_order() {
    let fragment = FilterExpression::and(vec![
        range(text("1"), text("5")),
        FilterExpression::with_component_data("c::D", text("x")),
    ])
    .where_clause();
    assert_eq!(
        fragment.sql,
        format!(
            "({WITH}:3 and extract_ordinal(data) between extract_ordinal(:1) and extract_ordinal(:2)) and {WITH}:4 and data = :5))"
        )
    );
    assert_eq!(
        fragment.placeholders,
        named(vec![
            (":1", text("1")),
            (":2", text("5")),
            (":3", text("a::B")),
            (":4", text("c::D")),
            (":5", text("x")),
        ])
    );
}

fn names_are_distinct(fragment: &SqlFragment<Where>) -> bool {
    let mut names: Vec<&String> = fragment.placeholders.iter().map(|(name, _)| name).collect();
    let count = names.len();
    names.sort();
    names.dedup();
    names.len() == count
}

#[test]
fn placeholders_never_share_a_name() {
    let mut members = Vec::new();
    for i in 0..12 {
        members.push(FilterExpression::or(vec![
            FilterExpression::with_component_data("c::D", StoreValue::Integer(i)),
            range(StoreValue::Integer(i), StoreValue::Integer(i + 1)),
        ]));
    }
    let nested = FilterExpression::and(vec![
        FilterExpression::and(members),
        FilterExpression::entity(1),
    ]);
    let fragment = nested.where_clause();
    assert_eq!(fragment.placeholders.len(), 12 * 5 + 1);
    assert!(names_are_distinct(&fragment));
    assert_eq!(fragment.placeholders[9].0, ":10");
    assert_eq!(fragment.placeholders[60].0, ":61");
    assert!(fragment.sql.ends_with("and entity = :61)"));
    for (name, _) in &fragment.placeholders {
        let followed_by_digit = (0..10).any(|d| fragment.sql.contains(&format!("{name}{d}")));
        assert!(fragment.sql.contains(name.as_str()));
        if name.len() == 3 {
            assert!(!followed_by_digit || name.as_str() < ":7");
        }
    }
}

#[test]
fn simplify_drops_the_members_that_match_everything() {
    let expr = FilterExpression::and(vec![
        FilterExpression::none(),
        FilterExpression::with_component("a::B"),
        FilterExpression::or(vec![
            FilterExpression::none(),
            FilterExpression::entity(1),
            FilterExpression::and(vec![FilterExpression::none()]),
        ]),
    ]);
    assert_eq!(
        expr.simplify(),
        FilterExpression::and(vec![
            FilterExpression::with_component("a::B"),
            FilterExpression::or(vec![
                FilterExpression::entity(1),
                FilterExpression::and(vec![]),
            ]),
        ])
    );
    assert_eq!(FilterExpression::none().simplify(), FilterExpression::none());
    assert_eq!(
        FilterExpression::entity(3).simplify(),
        FilterExpression::entity(3)
    );
}

#[test]
fn fragment_new_keeps_text_and_placeholders() {
    let fragment: SqlFragment<Where> =
        SqlFragment::new("entity = ?1", vec![("?1", StoreValue::Integer(5))]);
    assert_eq!(fragment.sql, "entity = ?1");
    assert_eq!(
        fragment.placeholders,
        named(vec![("?1", StoreValue::Integer(5))])
    );
}

#[test]
fn members_that_match_everything_are_dropped_before_lowering() {
    let with_a = || FilterExpression::with_component("A");
    let vacuous = Query {
        filter: FilterExpression::or(vec![FilterExpression::none(), with_a()]),
        order_by: OrderBy::Asc,
    };
    let plain = Query {
        filter: FilterExpression::or(vec![with_a()]),
        order_by: OrderBy::Asc,
    };
    let compiled = vacuous.into_sql();
    assert_eq!(compiled, plain.into_sql());
    assert_eq!(
        compiled.0,
        format!("select distinct entity from components where ({WITH}:1)) order by entity asc")
    );
    assert_eq!(compiled.1, named(vec![(":1", text("A"))]));

    let nested = FilterExpression::and(vec![
        FilterExpression::none(),
        FilterExpression::or(vec![
            with_a(),
            FilterExpression::none(),
            FilterExpression::entity(3),
        ]),
        FilterExpression::and(vec![FilterExpression::none()]),
    ]);
    let expected = format!("(({WITH}:1) or entity = :2) and true)");
    assert_eq!(nested.where_clause().sql, expected);
    assert_eq!(
        nested.sql_query().sql,
        format!("select distinct entity from components where {expected}")
    );
    assert_eq!(
        nested.where_clause().placeholders,
        named(vec![(":1", text("A")), (":2", StoreValue::Integer(3))])
    );
    assert_eq!(
        nested.to_simplified(),
        FilterExpression::and(vec![
            FilterExpression::or(vec![with_a(), FilterExpression::entity(3)]),
            FilterExpression::and(vec![]),
        ])
    );

    let members = vec![FilterExpression::none(), with_a(), FilterExpression::none()];
    assert_eq!(
        FilterExpression::combine_exprs("or", &members).sql,
        format!("({WITH}:1))")
    );
    assert_eq!(
        FilterExpression::combine_exprs("and", &vec![FilterExpression::none()]).sql,
        "true"
    );
    assert_eq!(FilterExpression::none().where_clause().sql, "true");
}
