//! Queries: what to fetch, which entities to fetch it from, and the typed
//! predicates that say so without any SQL.
//!
//! Three contracts compose. [`QueryData`] names what is fetched for each
//! matching entity, [`QueryFilter`] is a predicate on the presence of
//! components, and [`QueryFilterValue`] is a predicate that carries a value.
//! Each of them lowers to one [`ir::FilterExpression`].

pub mod ir;
pub mod rename;
pub mod tuples;

use crate::component::{Bundle, Component, ComponentWrite};
use crate::query::ir::{simplified, simplified_members, FilterExpr, FilterExpression, OrderBy};
use crate::table::{
    has_record, holds, lemma_members_hold, lemma_presence_algebra, lemma_simplified_holds,
    selected, Comparison, Record,
};
use crate::value::StoreValueView;
use crate::EntityId;
use std::marker::PhantomData;
use vstd::prelude::*;

verus! {

/// What a query fetches for each matching entity. Fetching a component
/// restricts the query to the entities that have it.
pub trait QueryData {
    /// The restriction that fetching puts on the entities.
    spec fn filter() -> FilterExpr;

    fn filter_expression() -> (expr: FilterExpression)
        ensures
            expr@ == Self::filter(),
    ;
}

/// A predicate on which components an entity has.
pub trait QueryFilter {
    /// The expression that the predicate stands for.
    spec fn filter() -> FilterExpr;

    fn filter_expression() -> (expr: FilterExpression)
        ensures
            expr@ == Self::filter(),
    ;
}

/// Matches if the entity has at least one of the components of the bundle `C`.
pub struct AnyOf<C>(PhantomData<C>);

/// Matches if the entity has all components in `C`.
pub struct With<C>(PhantomData<C>);

/// Matches if the entity has none of the components in `C`.
pub struct Without<C>(PhantomData<C>);

/// Matches if any of the filters in `F` matches.
pub struct Or<F>(F);

/// A predicate that carries the value to compare with.
pub trait QueryFilterValue: Sized {
    /// Whether the value can be made into an expression: whether every
    /// component in it can be written.
    spec fn filterable(&self) -> bool;

    /// The expression that the value stands for.
    spec fn filter(&self) -> FilterExpr;

    fn is_filterable(&self) -> (filterable: bool)
        ensures
            filterable == self.filterable(),
    ;

    fn filter_expression(&self) -> (expr: FilterExpression)
        requires
            self.filterable(),
        ensures
            expr@ == self.filter(),
    ;
}

/// A query for `D`, on the entities that match `F` and the value `V`.
pub struct Query<D, F = (), V = ()> {
    pub data: PhantomData<D>,
    pub filter: PhantomData<F>,
    pub filter_value: V,
}

impl<D, F> Query<D, F, ()> {
    /// A query without a value to compare with.
    pub fn new() -> (query: Self)
        ensures
            query.filter_value == (),
    {
        Self { data: PhantomData, filter: PhantomData, filter_value: () }
    }
}

impl<D, F, V> Query<D, F, V> {
    /// A query on the entities that match `filter_value`.
    pub fn with_filter(filter_value: V) -> (query: Self)
        ensures
            query.filter_value == filter_value,
    {
        Self { data: PhantomData, filter: PhantomData, filter_value }
    }
}

impl<D: QueryData, F: QueryFilter, V: QueryFilterValue> Query<D, F, V> {
    /// The filter of the query: the conjunction of what fetching `D`
    /// requires, of the predicate `F` and of the value.
    pub open spec fn expression(&self) -> FilterExpr {
        FilterExpr::And(seq![D::filter(), F::filter(), self.filter_value.filter()])
    }

    /// Lowers the query to its filter, with the result in ascending order.
    pub fn as_sql_query(&self) -> (query: ir::Query)
        requires
            self.filter_value.filterable(),
        ensures
            query.filter@ == self.expression(),
            query.order_by == OrderBy::Asc,
    {
        Self::lower(&self.filter_value)
    }

    /// Lowers the query for `D` on the entities that match `F` and
    /// `filter_value`, with the result in ascending order.
    pub fn lower(filter_value: &V) -> (query: ir::Query)
        requires
            filter_value.filterable(),
        ensures
            query.filter@ == FilterExpr::And(
                seq![D::filter(), F::filter(), filter_value.filter()],
            ),
            query.order_by == OrderBy::Asc,
    {
        let mut members: Vec<FilterExpression> = Vec::new();
        members.push(D::filter_expression());
        members.push(F::filter_expression());
        members.push(filter_value.filter_expression());
        let filter = FilterExpression::and(members);
        assert(filter@->And_0 =~= seq![D::filter(), F::filter(), filter_value.filter()]) by {
            ir::lemma_member_views(members@);
        }
        ir::Query { filter, order_by: OrderBy::Asc }
    }
}

impl QueryData for () {
    open spec fn filter() -> FilterExpr {
        FilterExpr::NoFilter
    }

    fn filter_expression() -> (expr: FilterExpression) {
        FilterExpression::none()
    }
}

impl QueryData for EntityId {
    open spec fn filter() -> FilterExpr {
        FilterExpr::NoFilter
    }

    fn filter_expression() -> (expr: FilterExpression) {
        FilterExpression::none()
    }
}

impl<C: Component> QueryData for C {
    open spec fn filter() -> FilterExpr {
        FilterExpr::WithComponent(C::NAME@)
    }

    fn filter_expression() -> (expr: FilterExpression) {
        FilterExpression::with_component(C::component_name())
    }
}

impl QueryFilter for () {
    open spec fn filter() -> FilterExpr {
        FilterExpr::NoFilter
    }

    fn filter_expression() -> (expr: FilterExpression) {
        FilterExpression::none()
    }
}

impl<C: Bundle> Default for AnyOf<C> {
    fn default() -> Self {
        Self(PhantomData)
    }
}

impl<C: Bundle> Default for With<C> {
    fn default() -> Self {
        Self(PhantomData)
    }
}

impl<C: Bundle> Default for Without<C> {
    fn default() -> Self {
        Self(PhantomData)
    }
}

impl<F: QueryFilter + Default> Default for Or<F> {
    fn default() -> Self {
        Self(F::default())
    }
}

impl<C: Component> QueryFilter for C {
    open spec fn filter() -> FilterExpr {
        FilterExpr::WithComponent(C::NAME@)
    }

    fn filter_expression() -> (expr: FilterExpression) {
        FilterExpression::with_component(C::component_name())
    }
}

/// For each name the test that an entity has the component of that name.
pub open spec fn presence_tests(names: Seq<Seq<char>>) -> Seq<FilterExpr> {
    Seq::new(names.len(), |i: int| FilterExpr::WithComponent(names[i]))
}

impl<C: Bundle> QueryFilter for AnyOf<C> {
    open spec fn filter() -> FilterExpr {
        FilterExpr::Or(presence_tests(C::names()))
    }

    fn filter_expression() -> (expr: FilterExpression) {
        let names = C::component_names();
        let mut members: Vec<FilterExpression> = Vec::new();
        let mut i: usize = 0;
        while i < names.len()
            invariant
                0 <= i <= names.len(),
                members@.len() == i,
                forall|j: int|
                    0 <= j < i ==> (#[trigger] members@[j])@ == FilterExpr::WithComponent(
                        names@[j]@,
                    ),
            decreases names.len() - i,
        {
            members.push(FilterExpression::with_component(names[i]));
            i += 1;
        }
        let expr = FilterExpression::or(members);
        assert(expr@->Or_0 =~= presence_tests(C::names())) by {
            ir::lemma_member_views(members@);
        }
        expr
    }
}

impl<C: Component> QueryFilter for With<C> {
    open spec fn filter() -> FilterExpr {
        FilterExpr::WithComponent(C::NAME@)
    }

    fn filter_expression() -> (expr: FilterExpression) {
        FilterExpression::with_component(C::component_name())
    }
}

impl<C: Component> QueryFilter for Without<C> {
    open spec fn filter() -> FilterExpr {
        FilterExpr::WithoutComponent(C::NAME@)
    }

    fn filter_expression() -> (expr: FilterExpression) {
        FilterExpression::without_component(C::component_name())
    }
}

impl QueryFilterValue for () {
    open spec fn filterable(&self) -> bool {
        true
    }

    open spec fn filter(&self) -> FilterExpr {
        FilterExpr::NoFilter
    }

    fn is_filterable(&self) -> (filterable: bool) {
        true
    }

    fn filter_expression(&self) -> (expr: FilterExpression) {
        FilterExpression::NoFilter
    }
}

impl QueryFilterValue for EntityId {
    open spec fn filterable(&self) -> bool {
        true
    }

    open spec fn filter(&self) -> FilterExpr {
        FilterExpr::EntityId(*self)
    }

    fn is_filterable(&self) -> (filterable: bool) {
        true
    }

    fn filter_expression(&self) -> (expr: FilterExpression) {
        FilterExpression::entity(*self)
    }
}

/// The name of a component, as a predicate: matches the entities that have
/// the component.
#[derive(PartialEq, Eq, Debug)]
pub struct ComponentName(pub String);

impl QueryFilterValue for ComponentName {
    open spec fn filterable(&self) -> bool {
        true
    }

    open spec fn filter(&self) -> FilterExpr {
        FilterExpr::WithComponent(self.0@)
    }

    fn is_filterable(&self) -> (filterable: bool) {
        true
    }

    fn filter_expression(&self) -> (expr: FilterExpression) {
        FilterExpression::WithComponent(self.0.clone())
    }
}

/// The value that a component is stored as, where it can be written.
pub open spec fn stored_value<C: Component>(component: &C) -> StoreValueView {
    match <C as ComponentWrite<C>>::written(component) {
        Ok(value) => value,
        Err(_) => StoreValueView::Null,
    }
}

impl<C: Component> QueryFilterValue for C {
    open spec fn filterable(&self) -> bool {
        <C as ComponentWrite<C>>::written(self) is Ok
    }

    open spec fn filter(&self) -> FilterExpr {
        FilterExpr::WithComponentData(C::NAME@, stored_value(self))
    }

    fn is_filterable(&self) -> (filterable: bool) {
        <C as ComponentWrite<C>>::to_rusqlite(self).is_ok()
    }

    fn filter_expression(&self) -> (expr: FilterExpression) {
        match <C as ComponentWrite<C>>::to_rusqlite(self) {
            Ok(value) => FilterExpression::with_component_data(C::component_name(), value),
            Err(_) => unreached(),
        }
    }
}

/// The expressions of a list of values, value by value.
pub open spec fn value_filters<V: QueryFilterValue>(values: Seq<V>) -> Seq<FilterExpr> {
    Seq::new(values.len(), |i: int| values[i].filter())
}

impl<V: QueryFilterValue> QueryFilterValue for &[V] {
    open spec fn filterable(&self) -> bool {
        forall|i: int| 0 <= i < self@.len() ==> (#[trigger] self@[i]).filterable()
    }

    open spec fn filter(&self) -> FilterExpr {
        FilterExpr::And(value_filters(self@))
    }

    fn is_filterable(&self) -> (filterable: bool) {
        let mut i: usize = 0;
        while i < self.len()
            invariant
                0 <= i <= self@.len(),
                forall|j: int| 0 <= j < i ==> (#[trigger] self@[j]).filterable(),
            decreases self@.len() - i,
        {
            if !self[i].is_filterable() {
                return false;
            }
            i += 1;
        }
        true
    }

    fn filter_expression(&self) -> (expr: FilterExpression) {
        let mut members: Vec<FilterExpression> = Vec::new();
        let mut i: usize = 0;
        while i < self.len()
            invariant
                0 <= i <= self@.len(),
                self.filterable(),
                members@.len() == i,
                forall|j: int| 0 <= j < i ==> (#[trigger] members@[j])@ == self@[j].filter(),
            decreases self@.len() - i,
        {
            members.push(self[i].filter_expression());
            i += 1;
        }
        let expr = FilterExpression::And(members);
        assert(expr@->And_0 =~= value_filters(self@)) by {
            ir::lemma_member_views(members@);
        }
        expr
    }
}

impl<C: QueryFilterValue + Component> QueryFilterValue for std::ops::Range<C> {
    open spec fn filterable(&self) -> bool {
        &&& <C as ComponentWrite<C>>::written(&self.start) is Ok
        &&& <C as ComponentWrite<C>>::written(&self.end) is Ok
    }

    open spec fn filter(&self) -> FilterExpr {
        FilterExpr::WithComponentDataRange {
            component: C::NAME@,
            start: stored_value(&self.start),
            end: stored_value(&self.end),
        }
    }

    fn is_filterable(&self) -> (filterable: bool) {
        <C as ComponentWrite<C>>::to_rusqlite(&self.start).is_ok() && <C as ComponentWrite<
            C,
        >>::to_rusqlite(&self.end).is_ok()
    }

    fn filter_expression(&self) -> (expr: FilterExpression) {
        let start = match <C as ComponentWrite<C>>::to_rusqlite(&self.start) {
            Ok(value) => value,
            Err(_) => unreached(),
        };
        let end = match <C as ComponentWrite<C>>::to_rusqlite(&self.end) {
            Ok(value) => value,
            Err(_) => unreached(),
        };
        FilterExpression::WithComponentDataRange {
            component: C::component_name().to_owned(),
            start,
            end,
        }
    }
}

/// `std::ops::RangeTo`, as it is declared: a struct of one public field,
/// `end`.
#[verifier::external_type_specification]
pub struct ExRangeTo<Idx>(std::ops::RangeTo<Idx>);

/// `std::ops::RangeFrom`, as it is declared: a struct of one public field,
/// `start`.
#[verifier::external_type_specification]
pub struct ExRangeFrom<Idx>(std::ops::RangeFrom<Idx>);

impl<C: QueryFilterValue + Component> QueryFilterValue for std::ops::RangeTo<C> {
    open spec fn filterable(&self) -> bool {
        <C as ComponentWrite<C>>::written(&self.end) is Ok
    }

    open spec fn filter(&self) -> FilterExpr {
        FilterExpr::WithComponentDataRange {
            component: C::NAME@,
            start: StoreValueView::Null,
            end: stored_value(&self.end),
        }
    }

    fn is_filterable(&self) -> (filterable: bool) {
        <C as ComponentWrite<C>>::to_rusqlite(&self.end).is_ok()
    }

    fn filter_expression(&self) -> (expr: FilterExpression) {
        let end = match <C as ComponentWrite<C>>::to_rusqlite(&self.end) {
            Ok(value) => value,
            Err(_) => unreached(),
        };
        FilterExpression::WithComponentDataRange {
            component: C::component_name().to_owned(),
            start: crate::value::StoreValue::Null,
            end,
        }
    }
}

impl<C: QueryFilterValue + Component> QueryFilterValue for std::ops::RangeFrom<C> {
    open spec fn filterable(&self) -> bool {
        <C as ComponentWrite<C>>::written(&self.start) is Ok
    }

    open spec fn filter(&self) -> FilterExpr {
        FilterExpr::WithComponentDataRange {
            component: C::NAME@,
            start: stored_value(&self.start),
            end: StoreValueView::Null,
        }
    }

    fn is_filterable(&self) -> (filterable: bool) {
        <C as ComponentWrite<C>>::to_rusqlite(&self.start).is_ok()
    }

    fn filter_expression(&self) -> (expr: FilterExpression) {
        let start = match <C as ComponentWrite<C>>::to_rusqlite(&self.start) {
            Ok(value) => value,
            Err(_) => unreached(),
        };
        FilterExpression::WithComponentDataRange {
            component: C::component_name().to_owned(),
            start,
            end: crate::value::StoreValue::Null,
        }
    }
}

/// Presence algebra of the typed predicates: `With<A>` and `Without<A>`
/// together select no entity; `Or` of `With<A>` and `With<B>` selects the
/// union of what the two select; and the tuple of `With<A>` and `With<B>`
/// selects exactly the entities that both select. Simplification leaves
/// these predicates as they are, so that the same holds of what is compiled.
pub proof fn lemma_typed_presence_algebra<A: Component, B: Component>(
    table: Seq<Record>,
    by: Comparison,
)
    ensures
        simplified(<(With<A>, Without<A>) as QueryFilter>::filter()) == <(
            With<A>,
            Without<A>,
        ) as QueryFilter>::filter(),
        simplified(<Or<(With<A>, With<B>)> as QueryFilter>::filter()) == <Or<
            (With<A>, With<B>),
        > as QueryFilter>::filter(),
        simplified(<(With<A>, With<B>) as QueryFilter>::filter()) == <(
            With<A>,
            With<B>,
        ) as QueryFilter>::filter(),
        simplified(<With<A> as QueryFilter>::filter()) == <With<A> as QueryFilter>::filter(),
        selected(table, <(With<A>, Without<A>) as QueryFilter>::filter(), by) == Set::<
            EntityId,
        >::empty(),
        selected(table, <Or<(With<A>, With<B>)> as QueryFilter>::filter(), by) == selected(
            table,
            <With<A> as QueryFilter>::filter(),
            by,
        ).union(selected(table, <With<B> as QueryFilter>::filter(), by)),
        selected(table, <(With<A>, With<B>) as QueryFilter>::filter(), by) == selected(
            table,
            <With<A> as QueryFilter>::filter(),
            by,
        ).intersect(selected(table, <With<B> as QueryFilter>::filter(), by)),
{
    lemma_presence_algebra(table, A::NAME@, B::NAME@, by);
    let with_a = FilterExpr::WithComponent(A::NAME@);
    let with_b = FilterExpr::WithComponent(B::NAME@);
    let without_a = FilterExpr::WithoutComponent(A::NAME@);
    lemma_pair_is_simple(with_a, without_a);
    lemma_pair_is_simple(with_a, with_b);
}

/// Two leaves that do not match every entity are left as they are by
/// simplification.
proof fn lemma_pair_is_simple(first: FilterExpr, second: FilterExpr)
    requires
        !(first is NoFilter) && !(first is And) && !(first is Or),
        !(second is NoFilter) && !(second is And) && !(second is Or),
    ensures
        simplified_members(seq![first, second]) == seq![first, second],
{
    let pair = seq![first, second];
    let one = seq![first];
    assert(pair.drop_last() =~= one);
    assert(one.drop_last() =~= Seq::<FilterExpr>::empty());
    assert(simplified_members(Seq::<FilterExpr>::empty()) =~= Seq::<FilterExpr>::empty());
    assert(one.last() == first);
    assert(pair.last() == second);
    assert(simplified(first) == first);
    assert(simplified(second) == second);
    assert(simplified_members(one) =~= simplified_members(one.drop_last()).push(first));
    assert(simplified_members(one) =~= one);
    assert(simplified_members(pair) =~= simplified_members(one).push(second));
    assert(simplified_members(pair) =~= pair);
}

/// Fetching a component restricts the query: whatever the predicate and the
/// value, a query for the component `C` selects only entities that have `C`.
/// That holds of the query's filter as it stands and of the simplified
/// filter, which is the one that is compiled.
pub proof fn lemma_fetching_requires_presence<C: Component, F: QueryFilter, V: QueryFilterValue>(
    query: Query<C, F, V>,
    table: Seq<Record>,
    by: Comparison,
    entity: EntityId,
)
    requires
        selected(table, query.expression(), by).contains(entity) || selected(
            table,
            simplified(query.expression()),
            by,
        ).contains(entity),
    ensures
        has_record(table, entity, C::NAME@),
{
    lemma_simplified_holds(table, query.expression(), entity, by);
    let members = seq![<C as QueryData>::filter(), F::filter(), query.filter_value.filter()];
    lemma_members_hold(table, members, entity, by);
    assert(holds(table, members[0], entity, by));
}

} // verus!
