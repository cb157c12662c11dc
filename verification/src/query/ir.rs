//! The filter expression tree, and its compiler to one parameterized SQL
//! statement whose placeholder names never collide.

use crate::query::rename::lemma_renamed_fragment;
use crate::text::{lemma_placeholder_name_injective, numbered_names};
use crate::value::{StoreValue, StoreValueView};
use crate::EntityId;
use std::marker::PhantomData;
use vstd::prelude::*;

verus! {

/// Mathematical model of a filter expression.
pub ghost enum FilterExpr {
    /// Matches every entity.
    NoFilter,
    /// Matches what all members match.
    And(Seq<FilterExpr>),
    /// Matches what at least one member matches.
    Or(Seq<FilterExpr>),
    /// Matches the entity with this id.
    EntityId(EntityId),
    /// Matches entities that have a record of this component.
    WithComponent(Seq<char>),
    /// Matches entities that have no record of this component.
    WithoutComponent(Seq<char>),
    /// Matches entities whose record of this component holds this value.
    WithComponentData(Seq<char>, StoreValueView),
    /// Matches entities whose record of this component lies between the two
    /// bounds, both inclusive; a null bound is no bound.
    WithComponentDataRange { component: Seq<char>, start: StoreValueView, end: StoreValueView },
}

/// A predicate over entities.
#[derive(Debug, PartialEq)]
pub enum FilterExpression {
    NoFilter,
    And(Vec<FilterExpression>),
    Or(Vec<FilterExpression>),
    EntityId(EntityId),
    WithComponent(String),
    WithoutComponent(String),
    WithComponentData(String, StoreValue),
    WithComponentDataRange { component: String, start: StoreValue, end: StoreValue },
}

/// The models of a list of expressions, member by member.
pub open spec fn member_views(members: Seq<FilterExpression>) -> Seq<FilterExpr>
    decreases members,
{
    if members.len() == 0 {
        Seq::empty()
    } else {
        member_views(members.drop_last()).push(model(members.last()))
    }
}

/// The model of an expression.
pub open spec fn model(expr: FilterExpression) -> FilterExpr
    decreases expr,
{
    match expr {
        FilterExpression::NoFilter => FilterExpr::NoFilter,
        FilterExpression::And(members) => FilterExpr::And(member_views(members@)),
        FilterExpression::Or(members) => FilterExpr::Or(member_views(members@)),
        FilterExpression::EntityId(id) => FilterExpr::EntityId(id),
        FilterExpression::WithComponent(component) => FilterExpr::WithComponent(component@),
        FilterExpression::WithoutComponent(component) => FilterExpr::WithoutComponent(component@),
        FilterExpression::WithComponentData(component, data) => FilterExpr::WithComponentData(
            component@,
            data@,
        ),
        FilterExpression::WithComponentDataRange {
            component,
            start,
            end,
        } => FilterExpr::WithComponentDataRange {
            component: component@,
            start: start@,
            end: end@,
        },
    }
}

impl View for FilterExpression {
    type V = FilterExpr;

    open spec fn view(&self) -> FilterExpr {
        model(*self)
    }
}

/// The models of a list are as many as its members, and each is the model of
/// the member in its place.
pub proof fn lemma_member_views(members: Seq<FilterExpression>)
    ensures
        member_views(members).len() == members.len(),
        forall|i: int|
            0 <= i < members.len() ==> #[trigger] member_views(members)[i] == members[i]@,
    decreases members.len(),
{
    if members.len() > 0 {
        lemma_member_views(members.drop_last());
    }
}

/// A list that grows by one member grows by that member's model.
pub proof fn lemma_member_views_push(members: Seq<FilterExpression>, last: FilterExpression)
    ensures
        member_views(members.push(last)) == member_views(members).push(last@),
{
    assert(members.push(last).drop_last() =~= members);
}

/// The values that an expression binds, in the order of its placeholders.
pub open spec fn bound_values(expr: FilterExpr) -> Seq<StoreValueView>
    decreases expr,
{
    match expr {
        FilterExpr::NoFilter => Seq::empty(),
        FilterExpr::And(members) => all_bound_values(members),
        FilterExpr::Or(members) => all_bound_values(members),
        FilterExpr::EntityId(id) => seq![StoreValueView::Integer(id)],
        FilterExpr::WithComponent(component) => seq![StoreValueView::Text(component)],
        FilterExpr::WithoutComponent(component) => seq![StoreValueView::Text(component)],
        FilterExpr::WithComponentData(component, data) => if data is Null {
            seq![StoreValueView::Text(component)]
        } else {
            seq![StoreValueView::Text(component), data]
        },
        FilterExpr::WithComponentDataRange { component, start, end } => range_bounds(
            start,
            end,
        ).push(StoreValueView::Text(component)),
    }
}

/// The bounds of a range that are not null, the start first.
pub open spec fn range_bounds(start: StoreValueView, end: StoreValueView) -> Seq<StoreValueView> {
    if start is Null && end is Null {
        Seq::empty()
    } else if start is Null {
        seq![end]
    } else if end is Null {
        seq![start]
    } else {
        seq![start, end]
    }
}

/// The values that the members of a list bind, member after member.
pub open spec fn all_bound_values(members: Seq<FilterExpr>) -> Seq<StoreValueView>
    decreases members,
{
    if members.len() == 0 {
        Seq::empty()
    } else {
        all_bound_values(members.drop_last()) + bound_values(members.last())
    }
}

/// The names that the placeholders of an expression have when it is compiled
/// by itself. A leaf numbers its own placeholders; a conjunction or
/// disjunction numbers those of all its members from one counter.
pub open spec fn placeholder_names(expr: FilterExpr) -> Seq<Seq<char>> {
    match expr {
        FilterExpr::NoFilter => Seq::empty(),
        FilterExpr::And(members) => numbered_names(0, all_bound_values(members).len()),
        FilterExpr::Or(members) => numbered_names(0, all_bound_values(members).len()),
        FilterExpr::EntityId(_) => seq!["?1"@],
        FilterExpr::WithComponent(_) => seq!["?1"@],
        FilterExpr::WithoutComponent(_) => seq!["?1"@],
        FilterExpr::WithComponentData(_, data) => if data is Null {
            seq!["?1"@]
        } else {
            seq!["?1"@, "?2"@]
        },
        FilterExpr::WithComponentDataRange { start, end, .. } => if start is Null && end is Null {
            seq!["?component"@]
        } else if start is Null || end is Null {
            seq!["?2"@, "?component"@]
        } else {
            seq!["?2"@, "?3"@, "?component"@]
        },
    }
}

/// The condition that one bound puts on the stored value: its ordinal
/// compared, by `operator`, with the ordinal of the placeholder `name`.
pub open spec fn bound_condition(operator: Seq<char>, name: Seq<char>) -> Seq<char> {
    "extract_ordinal(data) "@ + operator + " extract_ordinal("@ + name + ")"@
}

/// The condition that a range puts on the stored value. Values are compared
/// after the scalar function `extract_ordinal` has been applied to both sides.
pub open spec fn range_condition(
    start: StoreValueView,
    end: StoreValueView,
    names: Seq<Seq<char>>,
) -> Seq<
    char,
> {
    if start is Null && end is Null {
        "data is null"@
    } else if start is Null {
        bound_condition("<="@, names[0])
    } else if end is Null {
        bound_condition(">="@, names[0])
    } else {
        "extract_ordinal(data) between extract_ordinal("@ + names[0] + ") and extract_ordinal("@
            + names[1] + ")"@
    }
}

/// The SQL condition of an expression whose placeholders, in order, have the
/// given names.
pub open spec fn sql_with(expr: FilterExpr, names: Seq<Seq<char>>) -> Seq<char>
    decreases expr,
{
    match expr {
        FilterExpr::NoFilter => "true"@,
        FilterExpr::And(members) => if members.len() == 0 {
            "true"@
        } else {
            "("@ + joined(members, "and"@, names) + ")"@
        },
        FilterExpr::Or(members) => if members.len() == 0 {
            "true"@
        } else {
            "("@ + joined(members, "or"@, names) + ")"@
        },
        FilterExpr::EntityId(_) => "entity = "@ + names[0],
        FilterExpr::WithComponent(_) => {
            "entity in (select entity from components where component = "@ + names[0] + ")"@
        },
        FilterExpr::WithoutComponent(_) => {
            "entity not in (select entity from components where component = "@ + names[0]
                + ")"@
        },
        FilterExpr::WithComponentData(_, data) => if data is Null {
            "entity in (select entity from components where component = "@ + names[0]
                + " and data is null)"@
        } else {
            "entity in (select entity from components where component = "@ + names[0]
                + " and data = "@ + names[1] + ")"@
        },
        FilterExpr::WithComponentDataRange {
            start,
            end,
            ..
        } => "entity in (select entity from components where component = "@ + names.last()
            + " and "@ + range_condition(start, end, names) + ")"@,
    }
}

/// The conditions of the members of a list, joined by `via`. Each member takes
/// as many of the names as it has placeholders.
pub open spec fn joined(members: Seq<FilterExpr>, via: Seq<char>, names: Seq<Seq<char>>) -> Seq<
    char,
>
    decreases members,
{
    if members.len() == 0 {
        Seq::empty()
    } else if members.len() == 1 {
        sql_with(members[0], names)
    } else {
        let before = all_bound_values(members.drop_last()).len() as int;
        joined(members.drop_last(), via, names.take(before)) + " "@ + via + " "@ + sql_with(
            members.last(),
            names.skip(before),
        )
    }
}

/// The condition of a conjunction (`via` is `and`) or disjunction (`or`) of
/// the members: `true` where there is no member, else the members' conditions
/// joined, in brackets.
pub open spec fn combined_sql(
    members: Seq<FilterExpr>,
    via: Seq<char>,
    names: Seq<Seq<char>>,
) -> Seq<
    char,
> {
    if members.len() == 0 {
        "true"@
    } else {
        "("@ + joined(members, via, names) + ")"@
    }
}

/// Names and values, paired in order.
pub open spec fn named(names: Seq<Seq<char>>, values: Seq<StoreValueView>) -> Seq<
    (Seq<char>, StoreValueView),
> {
    Seq::new(values.len(), |i: int| (names[i], values[i]))
}

/// The SQL condition that an expression compiles to.
pub open spec fn where_sql(expr: FilterExpr) -> Seq<char> {
    sql_with(expr, placeholder_names(expr))
}

/// The placeholders that an expression compiles to, each with its value.
pub open spec fn where_bindings(expr: FilterExpr) -> Seq<(Seq<char>, StoreValueView)> {
    named(placeholder_names(expr), bound_values(expr))
}

/// The model of a list of placeholders: each name with the model of its value.
pub open spec fn bindings(
    placeholders: Seq<(String, StoreValue)>,
) -> Seq<(Seq<char>, StoreValueView)> {
    Seq::new(placeholders.len(), |i: int| (placeholders[i].0@, placeholders[i].1@))
}

/// Marks a fragment that is a condition.
#[derive(Debug)]
pub struct Where;

/// Marks a fragment that is a whole `select` statement.
#[derive(Debug)]
pub struct Select;

/// SQL text with the placeholders that occur in it, each with its value.
#[derive(Debug)]
pub struct SqlFragment<T> {
    pub kind: PhantomData<T>,
    pub sql: String,
    pub placeholders: Vec<(String, StoreValue)>,
}

impl<T> SqlFragment<T> {
    /// The model of the fragment's placeholders.
    pub open spec fn bindings(&self) -> Seq<(Seq<char>, StoreValueView)> {
        bindings(self.placeholders@)
    }
}

/// Numbered names split where a member's placeholders begin.
pub proof fn lemma_numbered_names_split(after: nat, before: nat, count: nat)
    ensures
        numbered_names(after, before + count).take(before as int) == numbered_names(after, before),
        numbered_names(after, before + count).skip(before as int) == numbered_names(
            after + before,
            count,
        ),
{
    assert(numbered_names(after, before + count).take(before as int) =~= numbered_names(
        after,
        before,
    ));
    assert(numbered_names(after, before + count).skip(before as int) =~= numbered_names(
        after + before,
        count,
    ));
}

/// Placeholder safety: however conditions on values and ranges are nested and
/// combined, the compiled expression has one name for each value that it
/// binds, and no two of its placeholders share a name.
pub proof fn lemma_placeholder_names_distinct(expr: FilterExpr)
    ensures
        placeholder_names(expr).len() == bound_values(expr).len(),
        where_bindings(expr).len() == bound_values(expr).len(),
        forall|i: int, j: int|
            0 <= i < j < where_bindings(expr).len() ==> where_bindings(expr)[i].0
                != where_bindings(expr)[j].0,
{
    reveal_strlit("?1");
    reveal_strlit("?2");
    reveal_strlit("?3");
    reveal_strlit("?component");
    let names = placeholder_names(expr);
    assert forall|i: int, j: int| 0 <= i < j < names.len() implies names[i] != names[j] by {
        match expr {
            FilterExpr::And(members) => {
                if names[i] == names[j] {
                    lemma_placeholder_name_injective((i + 1) as nat, (j + 1) as nat);
                }
            },
            FilterExpr::Or(members) => {
                if names[i] == names[j] {
                    lemma_placeholder_name_injective((i + 1) as nat, (j + 1) as nat);
                }
            },
            _ => {
                assert("?1"@[1] != "?2"@[1]);
                assert("?2"@[1] != "?3"@[1]);
                assert("?1"@.len() != "?component"@.len());
            },
        }
    }
}

impl FilterExpression {
    /// The expression that matches every entity.
    pub fn none() -> (expr: Self)
        ensures
            expr@ == FilterExpr::NoFilter,
    {
        Self::NoFilter
    }

    /// Matches the entities that have the component `c`.
    pub fn with_component(c: &str) -> (expr: Self)
        ensures
            expr@ == FilterExpr::WithComponent(c@),
    {
        Self::WithComponent(c.to_owned())
    }

    /// Matches the entities that lack the component `c`.
    pub fn without_component(c: &str) -> (expr: Self)
        ensures
            expr@ == FilterExpr::WithoutComponent(c@),
    {
        Self::WithoutComponent(c.to_owned())
    }

    /// Matches the entities whose component `c` holds `value`.
    pub fn with_component_data(c: &str, value: StoreValue) -> (expr: Self)
        ensures
            expr@ == FilterExpr::WithComponentData(c@, value@),
    {
        Self::WithComponentData(c.to_owned(), value)
    }

    /// Matches the entity `e`.
    pub fn entity(e: EntityId) -> (expr: Self)
        ensures
            expr@ == FilterExpr::EntityId(e),
    {
        Self::EntityId(e)
    }

    /// Matches what every one of `exprs` matches.
    pub fn and(exprs: Vec<FilterExpression>) -> (expr: Self)
        ensures
            expr@ == FilterExpr::And(member_views(exprs@)),
    {
        Self::And(exprs)
    }

    /// Matches what at least one of `exprs` matches.
    pub fn or(exprs: Vec<FilterExpression>) -> (expr: Self)
        ensures
            expr@ == FilterExpr::Or(member_views(exprs@)),
    {
        Self::Or(exprs)
    }
}

/// Binds `value` to the placeholder `name`.
fn bind(name: &str, value: StoreValue, placeholders: &mut Vec<(String, StoreValue)>)
    ensures
        final(placeholders)@.len() == old(placeholders)@.len() + 1,
        bindings(final(placeholders)@) == bindings(old(placeholders)@).push((name@, value@)),
{
    placeholders.push((name.to_owned(), value));
    assert(bindings(placeholders@) =~= bindings(old(placeholders)@).push((name@, value@)));
}

/// Appends the condition on one bound of a range: the stored value's ordinal
/// compared, by `operator`, with the ordinal of the placeholder `name`.
fn render_bound(operator: &str, name: &str, sql: &mut String)
    ensures
        final(sql)@ == old(sql)@ + bound_condition(operator@, name@),
{
    sql.append("extract_ordinal(data) ");
    sql.append(operator);
    sql.append(" extract_ordinal(");
    sql.append(name);
    sql.append(")");
    assert(sql@ =~= old(sql)@ + bound_condition(operator@, name@));
}

impl FilterExpression {
    /// Compiles a range test by itself.
    fn range_clause(component: &String, start: &StoreValue, end: &StoreValue) -> (fragment:
        SqlFragment<Where>)
        ensures
            fragment.sql@ == where_sql(
                FilterExpr::WithComponentDataRange {
                    component: component@,
                    start: start@,
                    end: end@,
                },
            ),
            fragment.bindings() == where_bindings(
                FilterExpr::WithComponentDataRange {
                    component: component@,
                    start: start@,
                    end: end@,
                },
            ),
    {
        let ghost expr = FilterExpr::WithComponentDataRange {
            component: component@,
            start: start@,
            end: end@,
        };
        let ghost names = placeholder_names(expr);
        let mut sql = String::new();
        let mut placeholders: Vec<(String, StoreValue)> = Vec::new();
        if !start.is_null() {
            bind("?2", start.clone(), &mut placeholders);
        }
        if !end.is_null() {
            if start.is_null() {
                bind("?2", end.clone(), &mut placeholders);
            } else {
                bind("?3", end.clone(), &mut placeholders);
            }
        }
        bind("?component", StoreValue::Text(component.clone()), &mut placeholders);
        assert(bindings(placeholders@) =~= where_bindings(expr));
        sql.append("entity in (select entity from components where component = ");
        sql.append("?component");
        sql.append(" and ");
        let ghost head = sql@;
        if start.is_null() && end.is_null() {
            sql.append("data is null");
        } else if start.is_null() {
            render_bound("<=", "?2", &mut sql);
        } else if end.is_null() {
            render_bound(">=", "?2", &mut sql);
        } else {
            sql.append("extract_ordinal(data) between extract_ordinal(");
            sql.append("?2");
            sql.append(") and extract_ordinal(");
            sql.append("?3");
            sql.append(")");
            assert(sql@ =~= head + range_condition(start@, end@, names));
        }
        assert(sql@ == head + range_condition(start@, end@, names));
        sql.append(")");
        assert(sql@ =~= where_sql(expr));
        SqlFragment { kind: PhantomData, sql, placeholders }
    }

    /// Compiles an expression that is neither a conjunction nor a
    /// disjunction. Its placeholders keep the names that the expression
    /// itself gives them.
    fn leaf_clause(&self) -> (fragment: SqlFragment<Where>)
        requires
            !(self@ is And),
            !(self@ is Or),
        ensures
            fragment.sql@ == where_sql(self@),
            fragment.bindings() == where_bindings(self@),
    {
        let mut sql = String::new();
        let mut placeholders: Vec<(String, StoreValue)> = Vec::new();
        match self {
            FilterExpression::NoFilter => {
                sql.append("true");
            },
            FilterExpression::And(_) => {},
            FilterExpression::Or(_) => {},
            FilterExpression::EntityId(id) => {
                bind("?1", StoreValue::Integer(*id), &mut placeholders);
                sql.append("entity = ");
                sql.append("?1");
            },
            FilterExpression::WithComponent(component) => {
                bind("?1", StoreValue::Text(component.clone()), &mut placeholders);
                sql.append("entity in (select entity from components where component = ");
                sql.append("?1");
                sql.append(")");
            },
            FilterExpression::WithoutComponent(component) => {
                bind("?1", StoreValue::Text(component.clone()), &mut placeholders);
                sql.append("entity not in (select entity from components where component = ");
                sql.append("?1");
                sql.append(")");
            },
            FilterExpression::WithComponentData(component, data) => {
                bind("?1", StoreValue::Text(component.clone()), &mut placeholders);
                sql.append("entity in (select entity from components where component = ");
                sql.append("?1");
                if data.is_null() {
                    sql.append(" and data is null)");
                } else {
                    bind("?2", data.clone(), &mut placeholders);
                    sql.append(" and data = ");
                    sql.append("?2");
                    sql.append(")");
                }
            },
            FilterExpression::WithComponentDataRange { component, start, end } => {
                return Self::range_clause(component, start, end);
            },
        }
        assert(sql@ =~= where_sql(self@));
        assert(bindings(placeholders@) =~= where_bindings(self@));
        SqlFragment { kind: PhantomData, sql, placeholders }
    }

    /// Lowers the expression, as it stands, to a condition over the column
    /// `entity`.
    ///
    /// A leaf keeps its own placeholder names. In a conjunction or
    /// disjunction, however deep, the placeholders are numbered `:1`, `:2`,
    /// ... in the order in which they are bound, so that no two of them share
    /// a name.
    fn lower(&self) -> (fragment: SqlFragment<Where>)
        ensures
            fragment.sql@ == where_sql(self@),
            fragment.bindings() == where_bindings(self@),
            forall|i: int, j: int|
                0 <= i < j < fragment.placeholders@.len() ==> fragment.placeholders@[i].0@
                    != fragment.placeholders@[j].0@,
        decreases self,
    {
        proof {
            lemma_placeholder_names_distinct(self@);
        }
        let fragment = match self {
            FilterExpression::And(members) => Self::lower_members("and", members),
            FilterExpression::Or(members) => Self::lower_members("or", members),
            _ => self.leaf_clause(),
        };
        assert forall|i: int, j: int|
            0 <= i < j < fragment.placeholders@.len() implies fragment.placeholders@[i].0@
            != fragment.placeholders@[j].0@ by {
            assert(fragment.bindings()[i].0 == fragment.placeholders@[i].0@);
            assert(fragment.bindings()[j].0 == fragment.placeholders@[j].0@);
        }
        fragment
    }

    /// Lowers the combination of `exprs`, as they stand, by `via` (`and`,
    /// `or`): `true` where there is none, else their conditions joined by
    /// `via`, in brackets.
    ///
    /// Each member is lowered by itself and has its placeholders renamed,
    /// in the list and in the text, to the numbers that one counter assigns:
    /// the count of the placeholders of the members before it, plus one, and
    /// so on.
    fn lower_members(via: &str, exprs: &Vec<FilterExpression>) -> (fragment: SqlFragment<Where>)
        ensures
            fragment.sql@ == combined_sql(
                member_views(exprs@),
                via@,
                numbered_names(0, all_bound_values(member_views(exprs@)).len()),
            ),
            fragment.bindings() == named(
                numbered_names(0, all_bound_values(member_views(exprs@)).len()),
                all_bound_values(member_views(exprs@)),
            ),
        decreases exprs,
    {
        let ghost views = member_views(exprs@);
        proof {
            lemma_member_views(exprs@);
        }
        if exprs.len() == 0 {
            let fragment = FilterExpression::NoFilter.leaf_clause();
            assert(fragment.bindings() =~= named(numbered_names(0, 0), all_bound_values(views)));
            return fragment;
        }
        let mut sql = String::from_str("(");
        let mut placeholders: Vec<(String, StoreValue)> = Vec::new();
        let mut last_placeholder: u128 = 0;
        let mut i: usize = 0;
        while i < exprs.len()
            invariant
                0 <= i <= exprs.len(),
                views == member_views(exprs@),
                views.len() == exprs@.len(),
                forall|j: int| 0 <= j < exprs@.len() ==> #[trigger] views[j] == exprs@[j]@,
                last_placeholder == placeholders@.len(),
                placeholders@.len() == all_bound_values(views.take(i as int)).len(),
                i == 0 ==> sql@ == "("@,
                i > 0 ==> sql@ == "("@ + joined(
                    views.take(i as int),
                    via@,
                    numbered_names(0, all_bound_values(views.take(i as int)).len()),
                ),
                bindings(placeholders@) == named(
                    numbered_names(0, all_bound_values(views.take(i as int)).len()),
                    all_bound_values(views.take(i as int)),
                ),
            decreases exprs.len() - i,
        {
            let ghost done = views.take(i as int);
            let ghost next = views.take(i + 1);
            let ghost count = all_bound_values(done).len();
            let ghost more = bound_values(views[i as int]).len();
            let ghost before = bindings(placeholders@);
            proof {
                assert(next.drop_last() =~= done);
                assert(next.last() == views[i as int]);
                assert(all_bound_values(next) == all_bound_values(done) + bound_values(
                    views[i as int],
                ));
                lemma_numbered_names_split(0, count, more);
            }
            let member = exprs[i].lower();
            proof {
                lemma_renamed_fragment(member, views[i as int], count);
                lemma_placeholder_names_distinct(views[i as int]);
                assert(member.placeholders@.len() == more) by {
                    assert(member.bindings().len() == member.placeholders@.len());
                }
                assert(placeholders@.len() == placeholders.len());
                assert(member.placeholders@.len() == member.placeholders.len());
            }
            let mut renamed = member.rename_identifier(&mut last_placeholder);
            if i > 0 {
                sql.append(" ");
                sql.append(via);
                sql.append(" ");
            }
            sql.append(renamed.sql.as_str());
            let ghost renamed_bindings = renamed.bindings();
            placeholders.append(&mut renamed.placeholders);
            proof {
                let names = numbered_names(0, count + more);
                let member_sql = sql_with(views[i as int], numbered_names(count, more));
                assert(renamed.sql@ == member_sql);
                assert(renamed_bindings.len() == more);
                if i == 0 {
                    assert(done.len() == 0);
                    assert(count == 0);
                    assert(next.len() == 1);
                    assert(next[0] == views[0]);
                    assert(joined(next, via@, names) == member_sql);
                    assert(sql@ =~= "("@ + joined(next, via@, names));
                } else {
                    assert(next.len() >= 2);
                    assert(joined(next, via@, names) == joined(done, via@, names.take(count as int))
                        + " "@ + via@ + " "@ + sql_with(next.last(), names.skip(count as int)));
                    assert(sql@ =~= "("@ + joined(next, via@, names));
                }
                assert(bindings(placeholders@) =~= before + renamed_bindings);
                assert(bindings(placeholders@) =~= named(names, all_bound_values(next)));
            }
            i += 1;
        }
        sql.append(")");
        proof {
            assert(views.take(exprs.len() as int) =~= views);
            let names = numbered_names(0, all_bound_values(views).len());
            assert(sql@ =~= combined_sql(views, via@, names));
        }
        SqlFragment { kind: PhantomData, sql, placeholders }
    }

    /// Lowers the expression, as it stands, to the statement that selects
    /// the matching entities, each once.
    fn lower_select(&self) -> (fragment: SqlFragment<Select>)
        ensures
            fragment.sql@ == "select distinct entity from components where "@ + where_sql(self@),
            fragment.bindings() == where_bindings(self@),
    {
        let filter = self.lower();
        let mut sql = String::from_str("select distinct entity from components where ");
        sql.append(filter.sql.as_str());
        SqlFragment { kind: PhantomData, sql, placeholders: filter.placeholders }
    }
}

/// The expression without the members that match every entity: in every
/// conjunction and disjunction, each direct member `NoFilter` is dropped, and
/// the members that stay are simplified in turn.
pub open spec fn simplified(expr: FilterExpr) -> FilterExpr
    decreases expr,
{
    match expr {
        FilterExpr::And(members) => FilterExpr::And(simplified_members(members)),
        FilterExpr::Or(members) => FilterExpr::Or(simplified_members(members)),
        other => other,
    }
}

/// The members that are not `NoFilter`, simplified, in their order.
pub open spec fn simplified_members(members: Seq<FilterExpr>) -> Seq<FilterExpr>
    decreases members,
{
    if members.len() == 0 {
        Seq::empty()
    } else if members.last() is NoFilter {
        simplified_members(members.drop_last())
    } else {
        simplified_members(members.drop_last()).push(simplified(members.last()))
    }
}

/// Simplification keeps what is bound: the simplified expression binds the
/// same values, in the same order, as the expression.
pub proof fn lemma_simplified_binds_the_same(expr: FilterExpr)
    ensures
        bound_values(simplified(expr)) == bound_values(expr),
    decreases expr,
{
    match expr {
        FilterExpr::And(members) => {
            lemma_simplified_members_bind_the_same(members);
        },
        FilterExpr::Or(members) => {
            lemma_simplified_members_bind_the_same(members);
        },
        _ => {},
    }
}

/// The members that simplification keeps bind what all members bind.
proof fn lemma_simplified_members_bind_the_same(members: Seq<FilterExpr>)
    ensures
        all_bound_values(simplified_members(members)) == all_bound_values(members),
    decreases members,
{
    if members.len() > 0 {
        let front = members.drop_last();
        let last = members.last();
        lemma_simplified_members_bind_the_same(front);
        lemma_simplified_binds_the_same(last);
        let kept = simplified_members(members);
        if last is NoFilter {
            assert(all_bound_values(members) =~= all_bound_values(front));
        } else {
            assert(kept.drop_last() =~= simplified_members(front));
            assert(kept.last() == simplified(last));
        }
    }
}

impl FilterExpression {
    /// Whether the expression is the one that matches every entity.
    pub fn is_none(&self) -> (none: bool)
        ensures
            none == (self@ is NoFilter),
    {
        match self {
            FilterExpression::NoFilter => true,
            _ => false,
        }
    }

    /// Drops, from every conjunction and disjunction, the members that match
    /// every entity.
    pub fn simplify(self) -> (expr: Self)
        ensures
            expr@ == simplified(self@),
    {
        self.to_simplified()
    }

    /// A copy of the expression, simplified: without the members that match
    /// every entity.
    pub fn to_simplified(&self) -> (expr: Self)
        ensures
            expr@ == simplified(self@),
        decreases self,
    {
        match self {
            FilterExpression::NoFilter => FilterExpression::NoFilter,
            FilterExpression::And(members) => FilterExpression::And(
                Self::simplified_members_of(members),
            ),
            FilterExpression::Or(members) => FilterExpression::Or(
                Self::simplified_members_of(members),
            ),
            FilterExpression::EntityId(id) => FilterExpression::EntityId(*id),
            FilterExpression::WithComponent(component) => FilterExpression::WithComponent(
                component.clone(),
            ),
            FilterExpression::WithoutComponent(component) => FilterExpression::WithoutComponent(
                component.clone(),
            ),
            FilterExpression::WithComponentData(
                component,
                data,
            ) => FilterExpression::WithComponentData(component.clone(), data.clone()),
            FilterExpression::WithComponentDataRange {
                component,
                start,
                end,
            } => FilterExpression::WithComponentDataRange {
                component: component.clone(),
                start: start.clone(),
                end: end.clone(),
            },
        }
    }

    /// Simplified copies of the members that are not `NoFilter`.
    fn simplified_members_of(members: &Vec<FilterExpression>) -> (kept: Vec<FilterExpression>)
        ensures
            member_views(kept@) == simplified_members(member_views(members@)),
        decreases members,
    {
        let mut kept: Vec<FilterExpression> = Vec::new();
        let mut i: usize = 0;
        while i < members.len()
            invariant
                0 <= i <= members.len(),
                member_views(kept@) == simplified_members(
                    member_views(members@.take(i as int)),
                ),
            decreases members.len() - i,
        {
            let ghost done = members@.take(i as int);
            let ghost next = members@.take(i + 1);
            let ghost before = kept@;
            proof {
                assert(next.drop_last() =~= done);
                assert(next.last() == members@[i as int]);
                assert(member_views(next).drop_last() =~= member_views(done));
            }
            if !members[i].is_none() {
                let simple = members[i].to_simplified();
                kept.push(simple);
                proof {
                    lemma_member_views_push(before, simple);
                }
            }
            i += 1;
        }
        proof {
            assert(members@.take(members.len() as int) =~= members@);
        }
        kept
    }

    /// Compiles the expression to a condition over the column `entity`.
    ///
    /// The expression is simplified first: the members that match every
    /// entity are dropped from every conjunction and disjunction. What is
    /// left is lowered. A leaf keeps its own placeholder names; in a
    /// conjunction or disjunction, however deep, the placeholders are
    /// numbered `:1`, `:2`, ... in the order in which they are bound, so that
    /// no two of them share a name.
    pub fn where_clause(&self) -> (fragment: SqlFragment<Where>)
        ensures
            fragment.sql@ == where_sql(simplified(self@)),
            fragment.bindings() == where_bindings(simplified(self@)),
            forall|i: int, j: int|
                0 <= i < j < fragment.placeholders@.len() ==> fragment.placeholders@[i].0@
                    != fragment.placeholders@[j].0@,
    {
        self.to_simplified().lower()
    }

    /// Compiles the combination of `exprs` by `via` (`and`, `or`).
    ///
    /// The members are simplified first, and those that match every entity
    /// are dropped. The result is `true` where no member is left, else the
    /// conditions of the members joined by `via`, in brackets. Each member
    /// is lowered by itself and has its placeholders renamed, in the list
    /// and in the text, to the numbers that one counter assigns: the count
    /// of the placeholders of the members before it, plus one, and so on.
    pub fn combine_exprs(via: &str, exprs: &Vec<FilterExpression>) -> (fragment: SqlFragment<Where>)
        ensures
            fragment.sql@ == combined_sql(
                simplified_members(member_views(exprs@)),
                via@,
                numbered_names(0, all_bound_values(member_views(exprs@)).len()),
            ),
            fragment.bindings() == named(
                numbered_names(0, all_bound_values(member_views(exprs@)).len()),
                all_bound_values(member_views(exprs@)),
            ),
    {
        proof {
            lemma_simplified_members_bind_the_same(member_views(exprs@));
        }
        let kept = Self::simplified_members_of(exprs);
        Self::lower_members(via, &kept)
    }

    /// Compiles the expression to the statement that selects the matching
    /// entities, each once. The expression is simplified first.
    pub fn sql_query(&self) -> (fragment: SqlFragment<Select>)
        ensures
            fragment.sql@ == "select distinct entity from components where "@ + where_sql(
                simplified(self@),
            ),
            fragment.bindings() == where_bindings(simplified(self@)),
    {
        self.to_simplified().lower_select()
    }
}

/// Simplification keeps the placeholders: the simplified expression compiles
/// to the same names with the same values as the expression would as it
/// stands.
pub proof fn lemma_simplified_keeps_bindings(expr: FilterExpr)
    ensures
        where_bindings(simplified(expr)) == where_bindings(expr),
{
    lemma_simplified_binds_the_same(expr);
    match expr {
        FilterExpr::And(members) => {
            lemma_simplified_members_bind_the_same(members);
        },
        FilterExpr::Or(members) => {
            lemma_simplified_members_bind_the_same(members);
        },
        _ => {},
    }
}

/// The order in which a query hands out the matching entities.
#[derive(Debug, Clone, Copy, PartialEq, Eq)]
pub enum OrderBy {
    /// By ascending entity id.
    Asc,
    /// By descending entity id.
    Desc,
}

/// A filter together with the order of the result.
#[derive(Debug)]
pub struct Query {
    pub filter: FilterExpression,
    pub order_by: OrderBy,
}

/// The clause that orders the result.
pub open spec fn order_clause(order_by: OrderBy) -> Seq<char> {
    match order_by {
        OrderBy::Asc => "order by entity asc"@,
        OrderBy::Desc => "order by entity desc"@,
    }
}

/// The statement that a filter is lowered to, as it stands: the selection of
/// the matching entities, a space, and the ordering clause.
pub open spec fn query_sql(filter: FilterExpr, order_by: OrderBy) -> Seq<char> {
    "select distinct entity from components where "@ + where_sql(filter) + " "@ + order_clause(
        order_by,
    )
}

impl Query {
    /// Compiles the query to its statement and the placeholders to bind. The
    /// filter is simplified first, so that no member that matches every
    /// entity is lowered.
    pub fn into_sql(self) -> (compiled: (String, Vec<(String, StoreValue)>))
        ensures
            compiled.0@ == query_sql(simplified(self.filter@), self.order_by),
            bindings(compiled.1@) == where_bindings(simplified(self.filter@)),
    {
        let select = self.filter.simplify().lower_select();
        let order_by = match self.order_by {
            OrderBy::Asc => "order by entity asc",
            OrderBy::Desc => "order by entity desc",
        };
        let mut sql = select.sql;
        sql.append(" ");
        sql.append(order_by);
        assert(sql@ =~= query_sql(simplified(self.filter@), self.order_by));
        (sql, select.placeholders)
    }
}

impl<T> SqlFragment<T> {
    /// A fragment of the given text and placeholders.
    pub fn new(sql: &str, placeholders: Vec<(&str, StoreValue)>) -> (fragment: Self)
        ensures
            fragment.sql@ == sql@,
            fragment.bindings() == Seq::new(
                placeholders@.len(),
                |i: int| (placeholders@[i].0@, placeholders@[i].1@),
            ),
    {
        let mut owned: Vec<(String, StoreValue)> = Vec::new();
        let mut i: usize = 0;
        while i < placeholders.len()
            invariant
                0 <= i <= placeholders.len(),
                owned@.len() == i,
                forall|j: int|
                    0 <= j < i ==> (#[trigger] owned@[j]).0@ == placeholders@[j].0@ && owned@[j].1@
                        == placeholders@[j].1@,
            decreases placeholders.len() - i,
        {
            let name = placeholders[i].0;
            owned.push((name.to_owned(), placeholders[i].1.clone()));
            i += 1;
        }
        let fragment = SqlFragment { kind: PhantomData, sql: sql.to_owned(), placeholders: owned };
        assert(fragment.bindings() =~= Seq::new(
            placeholders@.len(),
            |i: int| (placeholders@[i].0@, placeholders@[i].1@),
        ));
        fragment
    }
}

} // verus!
