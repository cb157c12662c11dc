//! Tuples in queries: a tuple of what to fetch, of predicates or of values
//! is the conjunction of its members; `Or` of a tuple is their disjunction.

use crate::component::Component;
use crate::query::ir::{lemma_member_views, FilterExpr, FilterExpression};
use crate::query::{Or, QueryData, QueryFilter, QueryFilterValue, With, Without};
use vstd::prelude::*;

verus! {

impl<A: QueryData> QueryData for (A,) {
    open spec fn filter() -> FilterExpr {
        FilterExpr::And(seq![A::filter()])
    }

    fn filter_expression() -> (expr: FilterExpression) {
        let mut members: Vec<FilterExpression> = Vec::new();
        members.push(<A as QueryData>::filter_expression());
        let expr = FilterExpression::and(members);
        assert(expr@->And_0 =~= seq![A::filter()]) by {
            lemma_member_views(members@);
        }
        expr
    }
}

impl<A: QueryFilterValue> QueryFilterValue for (A,) {
    open spec fn filterable(&self) -> bool {
        &&& self.0.filterable()
    }

    open spec fn filter(&self) -> FilterExpr {
        FilterExpr::And(seq![self.0.filter()])
    }

    fn is_filterable(&self) -> (filterable: bool) {
        self.0.is_filterable()
    }

    fn filter_expression(&self) -> (expr: FilterExpression) {
        let mut members: Vec<FilterExpression> = Vec::new();
        members.push(self.0.filter_expression());
        let expr = FilterExpression::and(members);
        assert(expr@->And_0 =~= seq![self.0.filter()]) by {
            lemma_member_views(members@);
        }
        expr
    }
}

impl<A: QueryFilter> QueryFilter for (A,) {
    open spec fn filter() -> FilterExpr {
        FilterExpr::And(seq![A::filter()])
    }

    fn filter_expression() -> (expr: FilterExpression) {
        let mut members: Vec<FilterExpression> = Vec::new();
        members.push(<A as QueryFilter>::filter_expression());
        let expr = FilterExpression::and(members);
        assert(expr@->And_0 =~= seq![A::filter()]) by {
            lemma_member_views(members@);
        }
        expr
    }
}

impl<A: QueryFilter> QueryFilter for Or<(A,)> {
    open spec fn filter() -> FilterExpr {
        FilterExpr::Or(seq![A::filter()])
    }

    fn filter_expression() -> (expr: FilterExpression) {
        let mut members: Vec<FilterExpression> = Vec::new();
        members.push(<A as QueryFilter>::filter_expression());
        let expr = FilterExpression::or(members);
        assert(expr@->Or_0 =~= seq![A::filter()]) by {
            lemma_member_views(members@);
        }
        expr
    }
}

impl<A: Component> QueryFilter for With<(A,)> {
    open spec fn filter() -> FilterExpr {
        FilterExpr::And(seq![FilterExpr::WithComponent(A::NAME@)])
    }

    fn filter_expression() -> (expr: FilterExpression) {
        let mut members: Vec<FilterExpression> = Vec::new();
        members.push(FilterExpression::with_component(A::component_name()));
        let expr = FilterExpression::and(members);
        assert(expr@->And_0 =~= seq![FilterExpr::WithComponent(A::NAME@)]) by {
            lemma_member_views(members@);
        }
        expr
    }
}

impl<A: Component> QueryFilter for Without<(A,)> {
    open spec fn filter() -> FilterExpr {
        FilterExpr::And(seq![FilterExpr::WithoutComponent(A::NAME@)])
    }

    fn filter_expression() -> (expr: FilterExpression) {
        let mut members: Vec<FilterExpression> = Vec::new();
        members.push(FilterExpression::without_component(A::component_name()));
        let expr = FilterExpression::and(members);
        assert(expr@->And_0 =~= seq![FilterExpr::WithoutComponent(A::NAME@)]) by {
            lemma_member_views(members@);
        }
        expr
    }
}

impl<A: QueryData, B: QueryData> QueryData for (A, B) {
    open spec fn filter() -> FilterExpr {
        FilterExpr::And(seq![A::filter(), B::filter()])
    }

    fn filter_expression() -> (expr: FilterExpression) {
        let mut members: Vec<FilterExpression> = Vec::new();
        members.push(<A as QueryData>::filter_expression());
        members.push(<B as QueryData>::filter_expression());
        let expr = FilterExpression::and(members);
        assert(expr@->And_0 =~= seq![A::filter(), B::filter()]) by {
            lemma_member_views(members@);
        }
        expr
    }
}

impl<A: QueryFilterValue, B: QueryFilterValue> QueryFilterValue for (A, B) {
    open spec fn filterable(&self) -> bool {
        &&& self.0.filterable()
        &&& self.1.filterable()
    }

    open spec fn filter(&self) -> FilterExpr {
        FilterExpr::And(seq![self.0.filter(), self.1.filter()])
    }

    fn is_filterable(&self) -> (filterable: bool) {
        self.0.is_filterable() && self.1.is_filterable()
    }

    fn filter_expression(&self) -> (expr: FilterExpression) {
        let mut members: Vec<FilterExpression> = Vec::new();
        members.push(self.0.filter_expression());
        members.push(self.1.filter_expression());
        let expr = FilterExpression::and(members);
        assert(expr@->And_0 =~= seq![self.0.filter(), self.1.filter()]) by {
            lemma_member_views(members@);
        }
        expr
    }
}

impl<A: QueryFilter, B: QueryFilter> QueryFilter for (A, B) {
    open spec fn filter() -> FilterExpr {
        FilterExpr::And(seq![A::filter(), B::filter()])
    }

    fn filter_expression() -> (expr: FilterExpression) {
        let mut members: Vec<FilterExpression> = Vec::new();
        members.push(<A as QueryFilter>::filter_expression());
        members.push(<B as QueryFilter>::filter_expression());
        let expr = FilterExpression::and(members);
        assert(expr@->And_0 =~= seq![A::filter(), B::filter()]) by {
            lemma_member_views(members@);
        }
        expr
    }
}

impl<A: QueryFilter, B: QueryFilter> QueryFilter for Or<(A, B)> {
    open spec fn filter() -> FilterExpr {
        FilterExpr::Or(seq![A::filter(), B::filter()])
    }

    fn filter_expression() -> (expr: FilterExpression) {
        let mut members: Vec<FilterExpression> = Vec::new();
        members.push(<A as QueryFilter>::filter_expression());
        members.push(<B as QueryFilter>::filter_expression());
        let expr = FilterExpression::or(members);
        assert(expr@->Or_0 =~= seq![A::filter(), B::filter()]) by {
            lemma_member_views(members@);
        }
        expr
    }
}

impl<A: Component, B: Component> QueryFilter for With<(A, B)> {
    open spec fn filter() -> FilterExpr {
        FilterExpr::And(seq![
            FilterExpr::WithComponent(A::NAME@),
            FilterExpr::WithComponent(B::NAME@),
        ])
    }

    fn filter_expression() -> (expr: FilterExpression) {
        let mut members: Vec<FilterExpression> = Vec::new();
        members.push(FilterExpression::with_component(A::component_name()));
        members.push(FilterExpression::with_component(B::component_name()));
        let expr = FilterExpression::and(members);
        assert(expr@->And_0 =~= seq![
            FilterExpr::WithComponent(A::NAME@),
            FilterExpr::WithComponent(B::NAME@),
        ]) by {
            lemma_member_views(members@);
        }
        expr
    }
}

impl<A: Component, B: Component> QueryFilter for Without<(A, B)> {
    open spec fn filter() -> FilterExpr {
        FilterExpr::And(seq![
            FilterExpr::WithoutComponent(A::NAME@),
            FilterExpr::WithoutComponent(B::NAME@),
        ])
    }

    fn filter_expression() -> (expr: FilterExpression) {
        let mut members: Vec<FilterExpression> = Vec::new();
        members.push(FilterExpression::without_component(A::component_name()));
        members.push(FilterExpression::without_component(B::component_name()));
        let expr = FilterExpression::and(members);
        assert(expr@->And_0 =~= seq![
            FilterExpr::WithoutComponent(A::NAME@),
            FilterExpr::WithoutComponent(B::NAME@),
        ]) by {
            lemma_member_views(members@);
        }
        expr
    }
}

impl<A: QueryData, B: QueryData, C: QueryData> QueryData for (A, B, C) {
    open spec fn filter() -> FilterExpr {
        FilterExpr::And(seq![A::filter(), B::filter(), C::filter()])
    }

    fn filter_expression() -> (expr: FilterExpression) {
        let mut members: Vec<FilterExpression> = Vec::new();
        members.push(<A as QueryData>::filter_expression());
        members.push(<B as QueryData>::filter_expression());
        members.push(<C as QueryData>::filter_expression());
        let expr = FilterExpression::and(members);
        assert(expr@->And_0 =~= seq![A::filter(), B::filter(), C::filter()]) by {
            lemma_member_views(members@);
        }
        expr
    }
}

impl<A: QueryFilterValue, B: QueryFilterValue, C: QueryFilterValue> QueryFilterValue for (A, B, C) {
    open spec fn filterable(&self) -> bool {
        &&& self.0.filterable()
        &&& self.1.filterable()
        &&& self.2.filterable()
    }

    open spec fn filter(&self) -> FilterExpr {
        FilterExpr::And(seq![self.0.filter(), self.1.filter(), self.2.filter()])
    }

    fn is_filterable(&self) -> (filterable: bool) {
        self.0.is_filterable() && self.1.is_filterable() && self.2.is_filterable()
    }

    fn filter_expression(&self) -> (expr: FilterExpression) {
        let mut members: Vec<FilterExpression> = Vec::new();
        members.push(self.0.filter_expression());
        members.push(self.1.filter_expression());
        members.push(self.2.filter_expression());
        let expr = FilterExpression::and(members);
        assert(expr@->And_0 =~= seq![self.0.filter(), self.1.filter(), self.2.filter()]) by {
            lemma_member_views(members@);
        }
        expr
    }
}

impl<A: QueryFilter, B: QueryFilter, C: QueryFilter> QueryFilter for (A, B, C) {
    open spec fn filter() -> FilterExpr {
        FilterExpr::And(seq![A::filter(), B::filter(), C::filter()])
    }

    fn filter_expression() -> (expr: FilterExpression) {
        let mut members: Vec<FilterExpression> = Vec::new();
        members.push(<A as QueryFilter>::filter_expression());
        members.push(<B as QueryFilter>::filter_expression());
        members.push(<C as QueryFilter>::filter_expression());
        let expr = FilterExpression::and(members);
        assert(expr@->And_0 =~= seq![A::filter(), B::filter(), C::filter()]) by {
            lemma_member_views(members@);
        }
        expr
    }
}

impl<A: QueryFilter, B: QueryFilter, C: QueryFilter> QueryFilter for Or<(A, B, C)> {
    open spec fn filter() -> FilterExpr {
        FilterExpr::Or(seq![A::filter(), B::filter(), C::filter()])
    }

    fn filter_expression() -> (expr: FilterExpression) {
        let mut members: Vec<FilterExpression> = Vec::new();
        members.push(<A as QueryFilter>::filter_expression());
        members.push(<B as QueryFilter>::filter_expression());
        members.push(<C as QueryFilter>::filter_expression());
        let expr = FilterExpression::or(members);
        assert(expr@->Or_0 =~= seq![A::filter(), B::filter(), C::filter()]) by {
            lemma_member_views(members@);
        }
        expr
    }
}

impl<A: Component, B: Component, C: Component> QueryFilter for With<(A, B, C)> {
    open spec fn filter() -> FilterExpr {
        FilterExpr::And(seq![
            FilterExpr::WithComponent(A::NAME@),
            FilterExpr::WithComponent(B::NAME@),
            FilterExpr::WithComponent(C::NAME@),
        ])
    }

    fn filter_expression() -> (expr: FilterExpression) {
        let mut members: Vec<FilterExpression> = Vec::new();
        members.push(FilterExpression::with_component(A::component_name()));
        members.push(FilterExpression::with_component(B::component_name()));
        members.push(FilterExpression::with_component(C::component_name()));
        let expr = FilterExpression::and(members);
        assert(expr@->And_0 =~= seq![
            FilterExpr::WithComponent(A::NAME@),
            FilterExpr::WithComponent(B::NAME@),
            FilterExpr::WithComponent(C::NAME@),
        ]) by {
            lemma_member_views(members@);
        }
        expr
    }
}

impl<A: Component, B: Component, C: Component> QueryFilter for Without<(A, B, C)> {
    open spec fn filter() -> FilterExpr {
        FilterExpr::And(seq![
            FilterExpr::WithoutComponent(A::NAME@),
            FilterExpr::WithoutComponent(B::NAME@),
            FilterExpr::WithoutComponent(C::NAME@),
        ])
    }

    fn filter_expression() -> (expr: FilterExpression) {
        let mut members: Vec<FilterExpression> = Vec::new();
        members.push(FilterExpression::without_component(A::component_name()));
        members.push(FilterExpression::without_component(B::component_name()));
        members.push(FilterExpression::without_component(C::component_name()));
        let expr = FilterExpression::and(members);
        assert(expr@->And_0 =~= seq![
            FilterExpr::WithoutComponent(A::NAME@),
            FilterExpr::WithoutComponent(B::NAME@),
            FilterExpr::WithoutComponent(C::NAME@),
        ]) by {
            lemma_member_views(members@);
        }
        expr
    }
}

impl<A: QueryData, B: QueryData, C: QueryData, D: QueryData> QueryData for (A, B, C, D) {
    open spec fn filter() -> FilterExpr {
        FilterExpr::And(seq![A::filter(), B::filter(), C::filter(), D::filter()])
    }

    fn filter_expression() -> (expr: FilterExpression) {
        let mut members: Vec<FilterExpression> = Vec::new();
        members.push(<A as QueryData>::filter_expression());
        members.push(<B as QueryData>::filter_expression());
        members.push(<C as QueryData>::filter_expression());
        members.push(<D as QueryData>::filter_expression());
        let expr = FilterExpression::and(members);
        assert(expr@->And_0 =~= seq![A::filter(), B::filter(), C::filter(), D::filter()]) by {
            lemma_member_views(members@);
        }
        expr
    }
}

impl<
    A: QueryFilterValue,
    B: QueryFilterValue,
    C: QueryFilterValue,
    D: QueryFilterValue,
> QueryFilterValue for (A, B, C, D) {
    open spec fn filterable(&self) -> bool {
        &&& self.0.filterable()
        &&& self.1.filterable()
        &&& self.2.filterable()
        &&& self.3.filterable()
    }

    open spec fn filter(&self) -> FilterExpr {
        FilterExpr::And(seq![self.0.filter(), self.1.filter(), self.2.filter(), self.3.filter()])
    }

    fn is_filterable(&self) -> (filterable: bool) {
        self.0.is_filterable()
            && self.1.is_filterable()
            && self.2.is_filterable()
            && self.3.is_filterable()
    }

    fn filter_expression(&self) -> (expr: FilterExpression) {
        let mut members: Vec<FilterExpression> = Vec::new();
        members.push(self.0.filter_expression());
        members.push(self.1.filter_expression());
        members.push(self.2.filter_expression());
        members.push(self.3.filter_expression());
        let expr = FilterExpression::and(members);
        assert(expr@->And_0 =~= seq![
            self.0.filter(),
            self.1.filter(),
            self.2.filter(),
            self.3.filter(),
        ]) by {
            lemma_member_views(members@);
        }
        expr
    }
}

impl<A: QueryFilter, B: QueryFilter, C: QueryFilter, D: QueryFilter> QueryFilter for (A, B, C, D) {
    open spec fn filter() -> FilterExpr {
        FilterExpr::And(seq![A::filter(), B::filter(), C::filter(), D::filter()])
    }

    fn filter_expression() -> (expr: FilterExpression) {
        let mut members: Vec<FilterExpression> = Vec::new();
        members.push(<A as QueryFilter>::filter_expression());
        members.push(<B as QueryFilter>::filter_expression());
        members.push(<C as QueryFilter>::filter_expression());
        members.push(<D as QueryFilter>::filter_expression());
        let expr = FilterExpression::and(members);
        assert(expr@->And_0 =~= seq![A::filter(), B::filter(), C::filter(), D::filter()]) by {
            lemma_member_views(members@);
        }
        expr
    }
}

impl<
    A: QueryFilter,
    B: QueryFilter,
    C: QueryFilter,
    D: QueryFilter,
> QueryFilter for Or<(A, B, C, D)> {
    open spec fn filter() -> FilterExpr {
        FilterExpr::Or(seq![A::filter(), B::filter(), C::filter(), D::filter()])
    }

    fn filter_expression() -> (expr: FilterExpression) {
        let mut members: Vec<FilterExpression> = Vec::new();
        members.push(<A as QueryFilter>::filter_expression());
        members.push(<B as QueryFilter>::filter_expression());
        members.push(<C as QueryFilter>::filter_expression());
        members.push(<D as QueryFilter>::filter_expression());
        let expr = FilterExpression::or(members);
        assert(expr@->Or_0 =~= seq![A::filter(), B::filter(), C::filter(), D::filter()]) by {
            lemma_member_views(members@);
        }
        expr
    }
}

impl<A: Component, B: Component, C: Component, D: Component> QueryFilter for With<(A, B, C, D)> {
    open spec fn filter() -> FilterExpr {
        FilterExpr::And(seq![
            FilterExpr::WithComponent(A::NAME@),
            FilterExpr::WithComponent(B::NAME@),
            FilterExpr::WithComponent(C::NAME@),
            FilterExpr::WithComponent(D::NAME@),
        ])
    }

    fn filter_expression() -> (expr: FilterExpression) {
        let mut members: Vec<FilterExpression> = Vec::new();
        members.push(FilterExpression::with_component(A::component_name()));
        members.push(FilterExpression::with_component(B::component_name()));
        members.push(FilterExpression::with_component(C::component_name()));
        members.push(FilterExpression::with_component(D::component_name()));
        let expr = FilterExpression::and(members);
        assert(expr@->And_0 =~= seq![
            FilterExpr::WithComponent(A::NAME@),
            FilterExpr::WithComponent(B::NAME@),
            FilterExpr::WithComponent(C::NAME@),
            FilterExpr::WithComponent(D::NAME@),
        ]) by {
            lemma_member_views(members@);
        }
        expr
    }
}

impl<A: Component, B: Component, C: Component, D: Component> QueryFilter for Without<(A, B, C, D)> {
    open spec fn filter() -> FilterExpr {
        FilterExpr::And(seq![
            FilterExpr::WithoutComponent(A::NAME@),
            FilterExpr::WithoutComponent(B::NAME@),
            FilterExpr::WithoutComponent(C::NAME@),
            FilterExpr::WithoutComponent(D::NAME@),
        ])
    }

    fn filter_expression() -> (expr: FilterExpression) {
        let mut members: Vec<FilterExpression> = Vec::new();
        members.push(FilterExpression::without_component(A::component_name()));
        members.push(FilterExpression::without_component(B::component_name()));
        members.push(FilterExpression::without_component(C::component_name()));
        members.push(FilterExpression::without_component(D::component_name()));
        let expr = FilterExpression::and(members);
        assert(expr@->And_0 =~= seq![
            FilterExpr::WithoutComponent(A::NAME@),
            FilterExpr::WithoutComponent(B::NAME@),
            FilterExpr::WithoutComponent(C::NAME@),
            FilterExpr::WithoutComponent(D::NAME@),
        ]) by {
            lemma_member_views(members@);
        }
        expr
    }
}

impl<
    A: QueryData,
    B: QueryData,
    C: QueryData,
    D: QueryData,
    E: QueryData,
> QueryData for (A, B, C, D, E) {
    open spec fn filter() -> FilterExpr {
        FilterExpr::And(seq![A::filter(), B::filter(), C::filter(), D::filter(), E::filter()])
    }

    fn filter_expression() -> (expr: FilterExpression) {
        let mut members: Vec<FilterExpression> = Vec::new();
        members.push(<A as QueryData>::filter_expression());
        members.push(<B as QueryData>::filter_expression());
        members.push(<C as QueryData>::filter_expression());
        members.push(<D as QueryData>::filter_expression());
        members.push(<E as QueryData>::filter_expression());
        let expr = FilterExpression::and(members);
        assert(expr@->And_0 =~= seq![
            A::filter(),
            B::filter(),
            C::filter(),
            D::filter(),
            E::filter(),
        ]) by {
            lemma_member_views(members@);
        }
        expr
    }
}

impl<
    A: QueryFilterValue,
    B: QueryFilterValue,
    C: QueryFilterValue,
    D: QueryFilterValue,
    E: QueryFilterValue,
> QueryFilterValue for (A, B, C, D, E) {
    open spec fn filterable(&self) -> bool {
        &&& self.0.filterable()
        &&& self.1.filterable()
        &&& self.2.filterable()
        &&& self.3.filterable()
        &&& self.4.filterable()
    }

    open spec fn filter(&self) -> FilterExpr {
        FilterExpr::And(seq![
            self.0.filter(),
            self.1.filter(),
            self.2.filter(),
            self.3.filter(),
            self.4.filter(),
        ])
    }

    fn is_filterable(&self) -> (filterable: bool) {
        self.0.is_filterable()
            && self.1.is_filterable()
            && self.2.is_filterable()
            && self.3.is_filterable()
            && self.4.is_filterable()
    }

    fn filter_expression(&self) -> (expr: FilterExpression) {
        let mut members: Vec<FilterExpression> = Vec::new();
        members.push(self.0.filter_expression());
        members.push(self.1.filter_expression());
        members.push(self.2.filter_expression());
        members.push(self.3.filter_expression());
        members.push(self.4.filter_expression());
        let expr = FilterExpression::and(members);
        assert(expr@->And_0 =~= seq![
            self.0.filter(),
            self.1.filter(),
            self.2.filter(),
            self.3.filter(),
            self.4.filter(),
        ]) by {
            lemma_member_views(members@);
        }
        expr
    }
}

impl<
    A: QueryFilter,
    B: QueryFilter,
    C: QueryFilter,
    D: QueryFilter,
    E: QueryFilter,
> QueryFilter for (A, B, C, D, E) {
    open spec fn filter() -> FilterExpr {
        FilterExpr::And(seq![A::filter(), B::filter(), C::filter(), D::filter(), E::filter()])
    }

    fn filter_expression() -> (expr: FilterExpression) {
        let mut members: Vec<FilterExpression> = Vec::new();
        members.push(<A as QueryFilter>::filter_expression());
        members.push(<B as QueryFilter>::filter_expression());
        members.push(<C as QueryFilter>::filter_expression());
        members.push(<D as QueryFilter>::filter_expression());
        members.push(<E as QueryFilter>::filter_expression());
        let expr = FilterExpression::and(members);
        assert(expr@->And_0 =~= seq![
            A::filter(),
            B::filter(),
            C::filter(),
            D::filter(),
            E::filter(),
        ]) by {
            lemma_member_views(members@);
        }
        expr
    }
}

impl<
    A: QueryFilter,
    B: QueryFilter,
    C: QueryFilter,
    D: QueryFilter,
    E: QueryFilter,
> QueryFilter for Or<(A, B, C, D, E)> {
    open spec fn filter() -> FilterExpr {
        FilterExpr::Or(seq![A::filter(), B::filter(), C::filter(), D::filter(), E::filter()])
    }

    fn filter_expression() -> (expr: FilterExpression) {
        let mut members: Vec<FilterExpression> = Vec::new();
        members.push(<A as QueryFilter>::filter_expression());
        members.push(<B as QueryFilter>::filter_expression());
        members.push(<C as QueryFilter>::filter_expression());
        members.push(<D as QueryFilter>::filter_expression());
        members.push(<E as QueryFilter>::filter_expression());
        let expr = FilterExpression::or(members);
        assert(expr@->Or_0 =~= seq![
            A::filter(),
            B::filter(),
            C::filter(),
            D::filter(),
            E::filter(),
        ]) by {
            lemma_member_views(members@);
        }
        expr
    }
}

impl<
    A: Component,
    B: Component,
    C: Component,
    D: Component,
    E: Component,
> QueryFilter for With<(A, B, C, D, E)> {
    open spec fn filter() -> FilterExpr {
        FilterExpr::And(seq![
            FilterExpr::WithComponent(A::NAME@),
            FilterExpr::WithComponent(B::NAME@),
            FilterExpr::WithComponent(C::NAME@),
            FilterExpr::WithComponent(D::NAME@),
            FilterExpr::WithComponent(E::NAME@),
        ])
    }

    fn filter_expression() -> (expr: FilterExpression) {
        let mut members: Vec<FilterExpression> = Vec::new();
        members.push(FilterExpression::with_component(A::component_name()));
        members.push(FilterExpression::with_component(B::component_name()));
        members.push(FilterExpression::with_component(C::component_name()));
        members.push(FilterExpression::with_component(D::component_name()));
        members.push(FilterExpression::with_component(E::component_name()));
        let expr = FilterExpression::and(members);
        assert(expr@->And_0 =~= seq![
            FilterExpr::WithComponent(A::NAME@),
            FilterExpr::WithComponent(B::NAME@),
            FilterExpr::WithComponent(C::NAME@),
            FilterExpr::WithComponent(D::NAME@),
            FilterExpr::WithComponent(E::NAME@),
        ]) by {
            lemma_member_views(members@);
        }
        expr
    }
}

impl<
    A: Component,
    B: Component,
    C: Component,
    D: Component,
    E: Component,
> QueryFilter for Without<(A, B, C, D, E)> {
    open spec fn filter() -> FilterExpr {
        FilterExpr::And(seq![
            FilterExpr::WithoutComponent(A::NAME@),
            FilterExpr::WithoutComponent(B::NAME@),
            FilterExpr::WithoutComponent(C::NAME@),
            FilterExpr::WithoutComponent(D::NAME@),
            FilterExpr::WithoutComponent(E::NAME@),
        ])
    }

    fn filter_expression() -> (expr: FilterExpression) {
        let mut members: Vec<FilterExpression> = Vec::new();
        members.push(FilterExpression::without_component(A::component_name()));
        members.push(FilterExpression::without_component(B::component_name()));
        members.push(FilterExpression::without_component(C::component_name()));
        members.push(FilterExpression::without_component(D::component_name()));
        members.push(FilterExpression::without_component(E::component_name()));
        let expr = FilterExpression::and(members);
        assert(expr@->And_0 =~= seq![
            FilterExpr::WithoutComponent(A::NAME@),
            FilterExpr::WithoutComponent(B::NAME@),
            FilterExpr::WithoutComponent(C::NAME@),
            FilterExpr::WithoutComponent(D::NAME@),
            FilterExpr::WithoutComponent(E::NAME@),
        ]) by {
            lemma_member_views(members@);
        }
        expr
    }
}

impl<
    A: QueryData,
    B: QueryData,
    C: QueryData,
    D: QueryData,
    E: QueryData,
    F: QueryData,
> QueryData for (A, B, C, D, E, F) {
    open spec fn filter() -> FilterExpr {
        FilterExpr::And(seq![
            A::filter(),
            B::filter(),
            C::filter(),
            D::filter(),
            E::filter(),
            F::filter(),
        ])
    }

    fn filter_expression() -> (expr: FilterExpression) {
        let mut members: Vec<FilterExpression> = Vec::new();
        members.push(<A as QueryData>::filter_expression());
        members.push(<B as QueryData>::filter_expression());
        members.push(<C as QueryData>::filter_expression());
        members.push(<D as QueryData>::filter_expression());
        members.push(<E as QueryData>::filter_expression());
        members.push(<F as QueryData>::filter_expression());
        let expr = FilterExpression::and(members);
        assert(expr@->And_0 =~= seq![
            A::filter(),
            B::filter(),
            C::filter(),
            D::filter(),
            E::filter(),
            F::filter(),
        ]) by {
            lemma_member_views(members@);
        }
        expr
    }
}

impl<
    A: QueryFilterValue,
    B: QueryFilterValue,
    C: QueryFilterValue,
    D: QueryFilterValue,
    E: QueryFilterValue,
    F: QueryFilterValue,
> QueryFilterValue for (A, B, C, D, E, F) {
    open spec fn filterable(&self) -> bool {
        &&& self.0.filterable()
        &&& self.1.filterable()
        &&& self.2.filterable()
        &&& self.3.filterable()
        &&& self.4.filterable()
        &&& self.5.filterable()
    }

    open spec fn filter(&self) -> FilterExpr {
        FilterExpr::And(seq![
            self.0.filter(),
            self.1.filter(),
            self.2.filter(),
            self.3.filter(),
            self.4.filter(),
            self.5.filter(),
        ])
    }

    fn is_filterable(&self) -> (filterable: bool) {
        self.0.is_filterable()
            && self.1.is_filterable()
            && self.2.is_filterable()
            && self.3.is_filterable()
            && self.4.is_filterable()
            && self.5.is_filterable()
    }

    fn filter_expression(&self) -> (expr: FilterExpression) {
        let mut members: Vec<FilterExpression> = Vec::new();
        members.push(self.0.filter_expression());
        members.push(self.1.filter_expression());
        members.push(self.2.filter_expression());
        members.push(self.3.filter_expression());
        members.push(self.4.filter_expression());
        members.push(self.5.filter_expression());
        let expr = FilterExpression::and(members);
        assert(expr@->And_0 =~= seq![
            self.0.filter(),
            self.1.filter(),
            self.2.filter(),
            self.3.filter(),
            self.4.filter(),
            self.5.filter(),
        ]) by {
            lemma_member_views(members@);
        }
        expr
    }
}

impl<
    A: QueryFilter,
    B: QueryFilter,
    C: QueryFilter,
    D: QueryFilter,
    E: QueryFilter,
    F: QueryFilter,
> QueryFilter for (A, B, C, D, E, F) {
    open spec fn filter() -> FilterExpr {
        FilterExpr::And(seq![
            A::filter(),
            B::filter(),
            C::filter(),
            D::filter(),
            E::filter(),
            F::filter(),
        ])
    }

    fn filter_expression() -> (expr: FilterExpression) {
        let mut members: Vec<FilterExpression> = Vec::new();
        members.push(<A as QueryFilter>::filter_expression());
        members.push(<B as QueryFilter>::filter_expression());
        members.push(<C as QueryFilter>::filter_expression());
        members.push(<D as QueryFilter>::filter_expression());
        members.push(<E as QueryFilter>::filter_expression());
        members.push(<F as QueryFilter>::filter_expression());
        let expr = FilterExpression::and(members);
        assert(expr@->And_0 =~= seq![
            A::filter(),
            B::filter(),
            C::filter(),
            D::filter(),
            E::filter(),
            F::filter(),
        ]) by {
            lemma_member_views(members@);
        }
        expr
    }
}

impl<
    A: QueryFilter,
    B: QueryFilter,
    C: QueryFilter,
    D: QueryFilter,
    E: QueryFilter,
    F: QueryFilter,
> QueryFilter for Or<(A, B, C, D, E, F)> {
    open spec fn filter() -> FilterExpr {
        FilterExpr::Or(seq![
            A::filter(),
            B::filter(),
            C::filter(),
            D::filter(),
            E::filter(),
            F::filter(),
        ])
    }

    fn filter_expression() -> (expr: FilterExpression) {
        let mut members: Vec<FilterExpression> = Vec::new();
        members.push(<A as QueryFilter>::filter_expression());
        members.push(<B as QueryFilter>::filter_expression());
        members.push(<C as QueryFilter>::filter_expression());
        members.push(<D as QueryFilter>::filter_expression());
        members.push(<E as QueryFilter>::filter_expression());
        members.push(<F as QueryFilter>::filter_expression());
        let expr = FilterExpression::or(members);
        assert(expr@->Or_0 =~= seq![
            A::filter(),
            B::filter(),
            C::filter(),
            D::filter(),
            E::filter(),
            F::filter(),
        ]) by {
            lemma_member_views(members@);
        }
        expr
    }
}

impl<
    A: Component,
    B: Component,
    C: Component,
    D: Component,
    E: Component,
    F: Component,
> QueryFilter for With<(A, B, C, D, E, F)> {
    open spec fn filter() -> FilterExpr {
        FilterExpr::And(seq![
            FilterExpr::WithComponent(A::NAME@),
            FilterExpr::WithComponent(B::NAME@),
            FilterExpr::WithComponent(C::NAME@),
            FilterExpr::WithComponent(D::NAME@),
            FilterExpr::WithComponent(E::NAME@),
            FilterExpr::WithComponent(F::NAME@),
        ])
    }

    fn filter_expression() -> (expr: FilterExpression) {
        let mut members: Vec<FilterExpression> = Vec::new();
        members.push(FilterExpression::with_component(A::component_name()));
        members.push(FilterExpression::with_component(B::component_name()));
        members.push(FilterExpression::with_component(C::component_name()));
        members.push(FilterExpression::with_component(D::component_name()));
        members.push(FilterExpression::with_component(E::component_name()));
        members.push(FilterExpression::with_component(F::component_name()));
        let expr = FilterExpression::and(members);
        assert(expr@->And_0 =~= seq![
            FilterExpr::WithComponent(A::NAME@),
            FilterExpr::WithComponent(B::NAME@),
            FilterExpr::WithComponent(C::NAME@),
            FilterExpr::WithComponent(D::NAME@),
            FilterExpr::WithComponent(E::NAME@),
            FilterExpr::WithComponent(F::NAME@),
        ]) by {
            lemma_member_views(members@);
        }
        expr
    }
}

impl<
    A: Component,
    B: Component,
    C: Component,
    D: Component,
    E: Component,
    F: Component,
> QueryFilter for Without<(A, B, C, D, E, F)> {
    open spec fn filter() -> FilterExpr {
        FilterExpr::And(seq![
            FilterExpr::WithoutComponent(A::NAME@),
            FilterExpr::WithoutComponent(B::NAME@),
            FilterExpr::WithoutComponent(C::NAME@),
            FilterExpr::WithoutComponent(D::NAME@),
            FilterExpr::WithoutComponent(E::NAME@),
            FilterExpr::WithoutComponent(F::NAME@),
        ])
    }

    fn filter_expression() -> (expr: FilterExpression) {
        let mut members: Vec<FilterExpression> = Vec::new();
        members.push(FilterExpression::without_component(A::component_name()));
        members.push(FilterExpression::without_component(B::component_name()));
        members.push(FilterExpression::without_component(C::component_name()));
        members.push(FilterExpression::without_component(D::component_name()));
        members.push(FilterExpression::without_component(E::component_name()));
        members.push(FilterExpression::without_component(F::component_name()));
        let expr = FilterExpression::and(members);
        assert(expr@->And_0 =~= seq![
            FilterExpr::WithoutComponent(A::NAME@),
            FilterExpr::WithoutComponent(B::NAME@),
            FilterExpr::WithoutComponent(C::NAME@),
            FilterExpr::WithoutComponent(D::NAME@),
            FilterExpr::WithoutComponent(E::NAME@),
            FilterExpr::WithoutComponent(F::NAME@),
        ]) by {
            lemma_member_views(members@);
        }
        expr
    }
}

impl<
    A: QueryData,
    B: QueryData,
    C: QueryData,
    D: QueryData,
    E: QueryData,
    F: QueryData,
    G: QueryData,
> QueryData for (A, B, C, D, E, F, G) {
    open spec fn filter() -> FilterExpr {
        FilterExpr::And(seq![
            A::filter(),
            B::filter(),
            C::filter(),
            D::filter(),
            E::filter(),
            F::filter(),
            G::filter(),
        ])
    }

    fn filter_expression() -> (expr: FilterExpression) {
        let mut members: Vec<FilterExpression> = Vec::new();
        members.push(<A as QueryData>::filter_expression());
        members.push(<B as QueryData>::filter_expression());
        members.push(<C as QueryData>::filter_expression());
        members.push(<D as QueryData>::filter_expression());
        members.push(<E as QueryData>::filter_expression());
        members.push(<F as QueryData>::filter_expression());
        members.push(<G as QueryData>::filter_expression());
        let expr = FilterExpression::and(members);
        assert(expr@->And_0 =~= seq![
            A::filter(),
            B::filter(),
            C::filter(),
            D::filter(),
            E::filter(),
            F::filter(),
            G::filter(),
        ]) by {
            lemma_member_views(members@);
        }
        expr
    }
}

impl<
    A: QueryFilterValue,
    B: QueryFilterValue,
    C: QueryFilterValue,
    D: QueryFilterValue,
    E: QueryFilterValue,
    F: QueryFilterValue,
    G: QueryFilterValue,
> QueryFilterValue for (A, B, C, D, E, F, G) {
    open spec fn filterable(&self) -> bool {
        &&& self.0.filterable()
        &&& self.1.filterable()
        &&& self.2.filterable()
        &&& self.3.filterable()
        &&& self.4.filterable()
        &&& self.5.filterable()
        &&& self.6.filterable()
    }

    open spec fn filter(&self) -> FilterExpr {
        FilterExpr::And(seq![
            self.0.filter(),
            self.1.filter(),
            self.2.filter(),
            self.3.filter(),
            self.4.filter(),
            self.5.filter(),
            self.6.filter(),
        ])
    }

    fn is_filterable(&self) -> (filterable: bool) {
        self.0.is_filterable()
            && self.1.is_filterable()
            && self.2.is_filterable()
            && self.3.is_filterable()
            && self.4.is_filterable()
            && self.5.is_filterable()
            && self.6.is_filterable()
    }

    fn filter_expression(&self) -> (expr: FilterExpression) {
        let mut members: Vec<FilterExpression> = Vec::new();
        members.push(self.0.filter_expression());
        members.push(self.1.filter_expression());
        members.push(self.2.filter_expression());
        members.push(self.3.filter_expression());
        members.push(self.4.filter_expression());
        members.push(self.5.filter_expression());
        members.push(self.6.filter_expression());
        let expr = FilterExpression::and(members);
        assert(expr@->And_0 =~= seq![
            self.0.filter(),
            self.1.filter(),
            self.2.filter(),
            self.3.filter(),
            self.4.filter(),
            self.5.filter(),
            self.6.filter(),
        ]) by {
            lemma_member_views(members@);
        }
        expr
    }
}

impl<
    A: QueryFilter,
    B: QueryFilter,
    C: QueryFilter,
    D: QueryFilter,
    E: QueryFilter,
    F: QueryFilter,
    G: QueryFilter,
> QueryFilter for (A, B, C, D, E, F, G) {
    open spec fn filter() -> FilterExpr {
        FilterExpr::And(seq![
            A::filter(),
            B::filter(),
            C::filter(),
            D::filter(),
            E::filter(),
            F::filter(),
            G::filter(),
        ])
    }

    fn filter_expression() -> (expr: FilterExpression) {
        let mut members: Vec<FilterExpression> = Vec::new();
        members.push(<A as QueryFilter>::filter_expression());
        members.push(<B as QueryFilter>::filter_expression());
        members.push(<C as QueryFilter>::filter_expression());
        members.push(<D as QueryFilter>::filter_expression());
        members.push(<E as QueryFilter>::filter_expression());
        members.push(<F as QueryFilter>::filter_expression());
        members.push(<G as QueryFilter>::filter_expression());
        let expr = FilterExpression::and(members);
        assert(expr@->And_0 =~= seq![
            A::filter(),
            B::filter(),
            C::filter(),
            D::filter(),
            E::filter(),
            F::filter(),
            G::filter(),
        ]) by {
            lemma_member_views(members@);
        }
        expr
    }
}

impl<
    A: QueryFilter,
    B: QueryFilter,
    C: QueryFilter,
    D: QueryFilter,
    E: QueryFilter,
    F: QueryFilter,
    G: QueryFilter,
> QueryFilter for Or<(A, B, C, D, E, F, G)> {
    open spec fn filter() -> FilterExpr {
        FilterExpr::Or(seq![
            A::filter(),
            B::filter(),
            C::filter(),
            D::filter(),
            E::filter(),
            F::filter(),
            G::filter(),
        ])
    }

    fn filter_expression() -> (expr: FilterExpression) {
        let mut members: Vec<FilterExpression> = Vec::new();
        members.push(<A as QueryFilter>::filter_expression());
        members.push(<B as QueryFilter>::filter_expression());
        members.push(<C as QueryFilter>::filter_expression());
        members.push(<D as QueryFilter>::filter_expression());
        members.push(<E as QueryFilter>::filter_expression());
        members.push(<F as QueryFilter>::filter_expression());
        members.push(<G as QueryFilter>::filter_expression());
        let expr = FilterExpression::or(members);
        assert(expr@->Or_0 =~= seq![
            A::filter(),
            B::filter(),
            C::filter(),
            D::filter(),
            E::filter(),
            F::filter(),
            G::filter(),
        ]) by {
            lemma_member_views(members@);
        }
        expr
    }
}

impl<
    A: Component,
    B: Component,
    C: Component,
    D: Component,
    E: Component,
    F: Component,
    G: Component,
> QueryFilter for With<(A, B, C, D, E, F, G)> {
    open spec fn filter() -> FilterExpr {
        FilterExpr::And(seq![
            FilterExpr::WithComponent(A::NAME@),
            FilterExpr::WithComponent(B::NAME@),
            FilterExpr::WithComponent(C::NAME@),
            FilterExpr::WithComponent(D::NAME@),
            FilterExpr::WithComponent(E::NAME@),
            FilterExpr::WithComponent(F::NAME@),
            FilterExpr::WithComponent(G::NAME@),
        ])
    }

    fn filter_expression() -> (expr: FilterExpression) {
        let mut members: Vec<FilterExpression> = Vec::new();
        members.push(FilterExpression::with_component(A::component_name()));
        members.push(FilterExpression::with_component(B::component_name()));
        members.push(FilterExpression::with_component(C::component_name()));
        members.push(FilterExpression::with_component(D::component_name()));
        members.push(FilterExpression::with_component(E::component_name()));
        members.push(FilterExpression::with_component(F::component_name()));
        members.push(FilterExpression::with_component(G::component_name()));
        let expr = FilterExpression::and(members);
        assert(expr@->And_0 =~= seq![
            FilterExpr::WithComponent(A::NAME@),
            FilterExpr::WithComponent(B::NAME@),
            FilterExpr::WithComponent(C::NAME@),
            FilterExpr::WithComponent(D::NAME@),
            FilterExpr::WithComponent(E::NAME@),
            FilterExpr::WithComponent(F::NAME@),
            FilterExpr::WithComponent(G::NAME@),
        ]) by {
            lemma_member_views(members@);
        }
        expr
    }
}

impl<
    A: Component,
    B: Component,
    C: Component,
    D: Component,
    E: Component,
    F: Component,
    G: Component,
> QueryFilter for Without<(A, B, C, D, E, F, G)> {
    open spec fn filter() -> FilterExpr {
        FilterExpr::And(seq![
            FilterExpr::WithoutComponent(A::NAME@),
            FilterExpr::WithoutComponent(B::NAME@),
            FilterExpr::WithoutComponent(C::NAME@),
            FilterExpr::WithoutComponent(D::NAME@),
            FilterExpr::WithoutComponent(E::NAME@),
            FilterExpr::WithoutComponent(F::NAME@),
            FilterExpr::WithoutComponent(G::NAME@),
        ])
    }

    fn filter_expression() -> (expr: FilterExpression) {
        let mut members: Vec<FilterExpression> = Vec::new();
        members.push(FilterExpression::without_component(A::component_name()));
        members.push(FilterExpression::without_component(B::component_name()));
        members.push(FilterExpression::without_component(C::component_name()));
        members.push(FilterExpression::without_component(D::component_name()));
        members.push(FilterExpression::without_component(E::component_name()));
        members.push(FilterExpression::without_component(F::component_name()));
        members.push(FilterExpression::without_component(G::component_name()));
        let expr = FilterExpression::and(members);
        assert(expr@->And_0 =~= seq![
            FilterExpr::WithoutComponent(A::NAME@),
            FilterExpr::WithoutComponent(B::NAME@),
            FilterExpr::WithoutComponent(C::NAME@),
            FilterExpr::WithoutComponent(D::NAME@),
            FilterExpr::WithoutComponent(E::NAME@),
            FilterExpr::WithoutComponent(F::NAME@),
            FilterExpr::WithoutComponent(G::NAME@),
        ]) by {
            lemma_member_views(members@);
        }
        expr
    }
}

impl<
    A: QueryData,
    B: QueryData,
    C: QueryData,
    D: QueryData,
    E: QueryData,
    F: QueryData,
    G: QueryData,
    H: QueryData,
> QueryData for (A, B, C, D, E, F, G, H) {
    open spec fn filter() -> FilterExpr {
        FilterExpr::And(seq![
            A::filter(),
            B::filter(),
            C::filter(),
            D::filter(),
            E::filter(),
            F::filter(),
            G::filter(),
            H::filter(),
        ])
    }

    fn filter_expression() -> (expr: FilterExpression) {
        let mut members: Vec<FilterExpression> = Vec::new();
        members.push(<A as QueryData>::filter_expression());
        members.push(<B as QueryData>::filter_expression());
        members.push(<C as QueryData>::filter_expression());
        members.push(<D as QueryData>::filter_expression());
        members.push(<E as QueryData>::filter_expression());
        members.push(<F as QueryData>::filter_expression());
        members.push(<G as QueryData>::filter_expression());
        members.push(<H as QueryData>::filter_expression());
        let expr = FilterExpression::and(members);
        assert(expr@->And_0 =~= seq![
            A::filter(),
            B::filter(),
            C::filter(),
            D::filter(),
            E::filter(),
            F::filter(),
            G::filter(),
            H::filter(),
        ]) by {
            lemma_member_views(members@);
        }
        expr
    }
}

impl<
    A: QueryFilterValue,
    B: QueryFilterValue,
    C: QueryFilterValue,
    D: QueryFilterValue,
    E: QueryFilterValue,
    F: QueryFilterValue,
    G: QueryFilterValue,
    H: QueryFilterValue,
> QueryFilterValue for (A, B, C, D, E, F, G, H) {
    open spec fn filterable(&self) -> bool {
        &&& self.0.filterable()
        &&& self.1.filterable()
        &&& self.2.filterable()
        &&& self.3.filterable()
        &&& self.4.filterable()
        &&& self.5.filterable()
        &&& self.6.filterable()
        &&& self.7.filterable()
    }

    open spec fn filter(&self) -> FilterExpr {
        FilterExpr::And(seq![
            self.0.filter(),
            self.1.filter(),
            self.2.filter(),
            self.3.filter(),
            self.4.filter(),
            self.5.filter(),
            self.6.filter(),
            self.7.filter(),
        ])
    }

    fn is_filterable(&self) -> (filterable: bool) {
        self.0.is_filterable()
            && self.1.is_filterable()
            && self.2.is_filterable()
            && self.3.is_filterable()
            && self.4.is_filterable()
            && self.5.is_filterable()
            && self.6.is_filterable()
            && self.7.is_filterable()
    }

    fn filter_expression(&self) -> (expr: FilterExpression) {
        let mut members: Vec<FilterExpression> = Vec::new();
        members.push(self.0.filter_expression());
        members.push(self.1.filter_expression());
        members.push(self.2.filter_expression());
        members.push(self.3.filter_expression());
        members.push(self.4.filter_expression());
        members.push(self.5.filter_expression());
        members.push(self.6.filter_expression());
        members.push(self.7.filter_expression());
        let expr = FilterExpression::and(members);
        assert(expr@->And_0 =~= seq![
            self.0.filter(),
            self.1.filter(),
            self.2.filter(),
            self.3.filter(),
            self.4.filter(),
            self.5.filter(),
            self.6.filter(),
            self.7.filter(),
        ]) by {
            lemma_member_views(members@);
        }
        expr
    }
}

impl<
    A: QueryFilter,
    B: QueryFilter,
    C: QueryFilter,
    D: QueryFilter,
    E: QueryFilter,
    F: QueryFilter,
    G: QueryFilter,
    H: QueryFilter,
> QueryFilter for (A, B, C, D, E, F, G, H) {
    open spec fn filter() -> FilterExpr {
        FilterExpr::And(seq![
            A::filter(),
            B::filter(),
            C::filter(),
            D::filter(),
            E::filter(),
            F::filter(),
            G::filter(),
            H::filter(),
        ])
    }

    fn filter_expression() -> (expr: FilterExpression) {
        let mut members: Vec<FilterExpression> = Vec::new();
        members.push(<A as QueryFilter>::filter_expression());
        members.push(<B as QueryFilter>::filter_expression());
        members.push(<C as QueryFilter>::filter_expression());
        members.push(<D as QueryFilter>::filter_expression());
        members.push(<E as QueryFilter>::filter_expression());
        members.push(<F as QueryFilter>::filter_expression());
        members.push(<G as QueryFilter>::filter_expression());
        members.push(<H as QueryFilter>::filter_expression());
        let expr = FilterExpression::and(members);
        assert(expr@->And_0 =~= seq![
            A::filter(),
            B::filter(),
            C::filter(),
            D::filter(),
            E::filter(),
            F::filter(),
            G::filter(),
            H::filter(),
        ]) by {
            lemma_member_views(members@);
        }
        expr
    }
}

impl<
    A: QueryFilter,
    B: QueryFilter,
    C: QueryFilter,
    D: QueryFilter,
    E: QueryFilter,
    F: QueryFilter,
    G: QueryFilter,
    H: QueryFilter,
> QueryFilter for Or<(A, B, C, D, E, F, G, H)> {
    open spec fn filter() -> FilterExpr {
        FilterExpr::Or(seq![
            A::filter(),
            B::filter(),
            C::filter(),
            D::filter(),
            E::filter(),
            F::filter(),
            G::filter(),
            H::filter(),
        ])
    }

    fn filter_expression() -> (expr: FilterExpression) {
        let mut members: Vec<FilterExpression> = Vec::new();
        members.push(<A as QueryFilter>::filter_expression());
        members.push(<B as QueryFilter>::filter_expression());
        members.push(<C as QueryFilter>::filter_expression());
        members.push(<D as QueryFilter>::filter_expression());
        members.push(<E as QueryFilter>::filter_expression());
        members.push(<F as QueryFilter>::filter_expression());
        members.push(<G as QueryFilter>::filter_expression());
        members.push(<H as QueryFilter>::filter_expression());
        let expr = FilterExpression::or(members);
        assert(expr@->Or_0 =~= seq![
            A::filter(),
            B::filter(),
            C::filter(),
            D::filter(),
            E::filter(),
            F::filter(),
            G::filter(),
            H::filter(),
        ]) by {
            lemma_member_views(members@);
        }
        expr
    }
}

impl<
    A: Component,
    B: Component,
    C: Component,
    D: Component,
    E: Component,
    F: Component,
    G: Component,
    H: Component,
> QueryFilter for With<(A, B, C, D, E, F, G, H)> {
    open spec fn filter() -> FilterExpr {
        FilterExpr::And(seq![
            FilterExpr::WithComponent(A::NAME@),
            FilterExpr::WithComponent(B::NAME@),
            FilterExpr::WithComponent(C::NAME@),
            FilterExpr::WithComponent(D::NAME@),
            FilterExpr::WithComponent(E::NAME@),
            FilterExpr::WithComponent(F::NAME@),
            FilterExpr::WithComponent(G::NAME@),
            FilterExpr::WithComponent(H::NAME@),
        ])
    }

    fn filter_expression() -> (expr: FilterExpression) {
        let mut members: Vec<FilterExpression> = Vec::new();
        members.push(FilterExpression::with_component(A::component_name()));
        members.push(FilterExpression::with_component(B::component_name()));
        members.push(FilterExpression::with_component(C::component_name()));
        members.push(FilterExpression::with_component(D::component_name()));
        members.push(FilterExpression::with_component(E::component_name()));
        members.push(FilterExpression::with_component(F::component_name()));
        members.push(FilterExpression::with_component(G::component_name()));
        members.push(FilterExpression::with_component(H::component_name()));
        let expr = FilterExpression::and(members);
        assert(expr@->And_0 =~= seq![
            FilterExpr::WithComponent(A::NAME@),
            FilterExpr::WithComponent(B::NAME@),
            FilterExpr::WithComponent(C::NAME@),
            FilterExpr::WithComponent(D::NAME@),
            FilterExpr::WithComponent(E::NAME@),
            FilterExpr::WithComponent(F::NAME@),
            FilterExpr::WithComponent(G::NAME@),
            FilterExpr::WithComponent(H::NAME@),
        ]) by {
            lemma_member_views(members@);
        }
        expr
    }
}

impl<
    A: Component,
    B: Component,
    C: Component,
    D: Component,
    E: Component,
    F: Component,
    G: Component,
    H: Component,
> QueryFilter for Without<(A, B, C, D, E, F, G, H)> {
    open spec fn filter() -> FilterExpr {
        FilterExpr::And(seq![
            FilterExpr::WithoutComponent(A::NAME@),
            FilterExpr::WithoutComponent(B::NAME@),
            FilterExpr::WithoutComponent(C::NAME@),
            FilterExpr::WithoutComponent(D::NAME@),
            FilterExpr::WithoutComponent(E::NAME@),
            FilterExpr::WithoutComponent(F::NAME@),
            FilterExpr::WithoutComponent(G::NAME@),
            FilterExpr::WithoutComponent(H::NAME@),
        ])
    }

    fn filter_expression() -> (expr: FilterExpression) {
        let mut members: Vec<FilterExpression> = Vec::new();
        members.push(FilterExpression::without_component(A::component_name()));
        members.push(FilterExpression::without_component(B::component_name()));
        members.push(FilterExpression::without_component(C::component_name()));
        members.push(FilterExpression::without_component(D::component_name()));
        members.push(FilterExpression::without_component(E::component_name()));
        members.push(FilterExpression::without_component(F::component_name()));
        members.push(FilterExpression::without_component(G::component_name()));
        members.push(FilterExpression::without_component(H::component_name()));
        let expr = FilterExpression::and(members);
        assert(expr@->And_0 =~= seq![
            FilterExpr::WithoutComponent(A::NAME@),
            FilterExpr::WithoutComponent(B::NAME@),
            FilterExpr::WithoutComponent(C::NAME@),
            FilterExpr::WithoutComponent(D::NAME@),
            FilterExpr::WithoutComponent(E::NAME@),
            FilterExpr::WithoutComponent(F::NAME@),
            FilterExpr::WithoutComponent(G::NAME@),
            FilterExpr::WithoutComponent(H::NAME@),
        ]) by {
            lemma_member_views(members@);
        }
        expr
    }
}

impl<
    A: QueryData,
    B: QueryData,
    C: QueryData,
    D: QueryData,
    E: QueryData,
    F: QueryData,
    G: QueryData,
    H: QueryData,
    I: QueryData,
> QueryData for (A, B, C, D, E, F, G, H, I) {
    open spec fn filter() -> FilterExpr {
        FilterExpr::And(seq![
            A::filter(),
            B::filter(),
            C::filter(),
            D::filter(),
            E::filter(),
            F::filter(),
            G::filter(),
            H::filter(),
            I::filter(),
        ])
    }

    fn filter_expression() -> (expr: FilterExpression) {
        let mut members: Vec<FilterExpression> = Vec::new();
        members.push(<A as QueryData>::filter_expression());
        members.push(<B as QueryData>::filter_expression());
        members.push(<C as QueryData>::filter_expression());
        members.push(<D as QueryData>::filter_expression());
        members.push(<E as QueryData>::filter_expression());
        members.push(<F as QueryData>::filter_expression());
        members.push(<G as QueryData>::filter_expression());
        members.push(<H as QueryData>::filter_expression());
        members.push(<I as QueryData>::filter_expression());
        let expr = FilterExpression::and(members);
        assert(expr@->And_0 =~= seq![
            A::filter(),
            B::filter(),
            C::filter(),
            D::filter(),
            E::filter(),
            F::filter(),
            G::filter(),
            H::filter(),
            I::filter(),
        ]) by {
            lemma_member_views(members@);
        }
        expr
    }
}

impl<
    A: QueryFilterValue,
    B: QueryFilterValue,
    C: QueryFilterValue,
    D: QueryFilterValue,
    E: QueryFilterValue,
    F: QueryFilterValue,
    G: QueryFilterValue,
    H: QueryFilterValue,
    I: QueryFilterValue,
> QueryFilterValue for (A, B, C, D, E, F, G, H, I) {
    open spec fn filterable(&self) -> bool {
        &&& self.0.filterable()
        &&& self.1.filterable()
        &&& self.2.filterable()
        &&& self.3.filterable()
        &&& self.4.filterable()
        &&& self.5.filterable()
        &&& self.6.filterable()
        &&& self.7.filterable()
        &&& self.8.filterable()
    }

    open spec fn filter(&self) -> FilterExpr {
        FilterExpr::And(seq![
            self.0.filter(),
            self.1.filter(),
            self.2.filter(),
            self.3.filter(),
            self.4.filter(),
            self.5.filter(),
            self.6.filter(),
            self.7.filter(),
            self.8.filter(),
        ])
    }

    fn is_filterable(&self) -> (filterable: bool) {
        self.0.is_filterable()
            && self.1.is_filterable()
            && self.2.is_filterable()
            && self.3.is_filterable()
            && self.4.is_filterable()
            && self.5.is_filterable()
            && self.6.is_filterable()
            && self.7.is_filterable()
            && self.8.is_filterable()
    }

    fn filter_expression(&self) -> (expr: FilterExpression) {
        let mut members: Vec<FilterExpression> = Vec::new();
        members.push(self.0.filter_expression());
        members.push(self.1.filter_expression());
        members.push(self.2.filter_expression());
        members.push(self.3.filter_expression());
        members.push(self.4.filter_expression());
        members.push(self.5.filter_expression());
        members.push(self.6.filter_expression());
        members.push(self.7.filter_expression());
        members.push(self.8.filter_expression());
        let expr = FilterExpression::and(members);
        assert(expr@->And_0 =~= seq![
            self.0.filter(),
            self.1.filter(),
            self.2.filter(),
            self.3.filter(),
            self.4.filter(),
            self.5.filter(),
            self.6.filter(),
            self.7.filter(),
            self.8.filter(),
        ]) by {
            lemma_member_views(members@);
        }
        expr
    }
}

impl<
    A: QueryFilter,
    B: QueryFilter,
    C: QueryFilter,
    D: QueryFilter,
    E: QueryFilter,
    F: QueryFilter,
    G: QueryFilter,
    H: QueryFilter,
    I: QueryFilter,
> QueryFilter for (A, B, C, D, E, F, G, H, I) {
    open spec fn filter() -> FilterExpr {
        FilterExpr::And(seq![
            A::filter(),
            B::filter(),
            C::filter(),
            D::filter(),
            E::filter(),
            F::filter(),
            G::filter(),
            H::filter(),
            I::filter(),
        ])
    }

    fn filter_expression() -> (expr: FilterExpression) {
        let mut members: Vec<FilterExpression> = Vec::new();
        members.push(<A as QueryFilter>::filter_expression());
        members.push(<B as QueryFilter>::filter_expression());
        members.push(<C as QueryFilter>::filter_expression());
        members.push(<D as QueryFilter>::filter_expression());
        members.push(<E as QueryFilter>::filter_expression());
        members.push(<F as QueryFilter>::filter_expression());
        members.push(<G as QueryFilter>::filter_expression());
        members.push(<H as QueryFilter>::filter_expression());
        members.push(<I as QueryFilter>::filter_expression());
        let expr = FilterExpression::and(members);
        assert(expr@->And_0 =~= seq![
            A::filter(),
            B::filter(),
            C::filter(),
            D::filter(),
            E::filter(),
            F::filter(),
            G::filter(),
            H::filter(),
            I::filter(),
        ]) by {
            lemma_member_views(members@);
        }
        expr
    }
}

impl<
    A: QueryFilter,
    B: QueryFilter,
    C: QueryFilter,
    D: QueryFilter,
    E: QueryFilter,
    F: QueryFilter,
    G: QueryFilter,
    H: QueryFilter,
    I: QueryFilter,
> QueryFilter for Or<(A, B, C, D, E, F, G, H, I)> {
    open spec fn filter() -> FilterExpr {
        FilterExpr::Or(seq![
            A::filter(),
            B::filter(),
            C::filter(),
            D::filter(),
            E::filter(),
            F::filter(),
            G::filter(),
            H::filter(),
            I::filter(),
        ])
    }

    fn filter_expression() -> (expr: FilterExpression) {
        let mut members: Vec<FilterExpression> = Vec::new();
        members.push(<A as QueryFilter>::filter_expression());
        members.push(<B as QueryFilter>::filter_expression());
        members.push(<C as QueryFilter>::filter_expression());
        members.push(<D as QueryFilter>::filter_expression());
        members.push(<E as QueryFilter>::filter_expression());
        members.push(<F as QueryFilter>::filter_expression());
        members.push(<G as QueryFilter>::filter_expression());
        members.push(<H as QueryFilter>::filter_expression());
        members.push(<I as QueryFilter>::filter_expression());
        let expr = FilterExpression::or(members);
        assert(expr@->Or_0 =~= seq![
            A::filter(),
            B::filter(),
            C::filter(),
            D::filter(),
            E::filter(),
            F::filter(),
            G::filter(),
            H::filter(),
            I::filter(),
        ]) by {
            lemma_member_views(members@);
        }
        expr
    }
}

impl<
    A: Component,
    B: Component,
    C: Component,
    D: Component,
    E: Component,
    F: Component,
    G: Component,
    H: Component,
    I: Component,
> QueryFilter for With<(A, B, C, D, E, F, G, H, I)> {
    open spec fn filter() -> FilterExpr {
        FilterExpr::And(seq![
            FilterExpr::WithComponent(A::NAME@),
            FilterExpr::WithComponent(B::NAME@),
            FilterExpr::WithComponent(C::NAME@),
            FilterExpr::WithComponent(D::NAME@),
            FilterExpr::WithComponent(E::NAME@),
            FilterExpr::WithComponent(F::NAME@),
            FilterExpr::WithComponent(G::NAME@),
            FilterExpr::WithComponent(H::NAME@),
            FilterExpr::WithComponent(I::NAME@),
        ])
    }

    fn filter_expression() -> (expr: FilterExpression) {
        let mut members: Vec<FilterExpression> = Vec::new();
        members.push(FilterExpression::with_component(A::component_name()));
        members.push(FilterExpression::with_component(B::component_name()));
        members.push(FilterExpression::with_component(C::component_name()));
        members.push(FilterExpression::with_component(D::component_name()));
        members.push(FilterExpression::with_component(E::component_name()));
        members.push(FilterExpression::with_component(F::component_name()));
        members.push(FilterExpression::with_component(G::component_name()));
        members.push(FilterExpression::with_component(H::component_name()));
        members.push(FilterExpression::with_component(I::component_name()));
        let expr = FilterExpression::and(members);
        assert(expr@->And_0 =~= seq![
            FilterExpr::WithComponent(A::NAME@),
            FilterExpr::WithComponent(B::NAME@),
            FilterExpr::WithComponent(C::NAME@),
            FilterExpr::WithComponent(D::NAME@),
            FilterExpr::WithComponent(E::NAME@),
            FilterExpr::WithComponent(F::NAME@),
            FilterExpr::WithComponent(G::NAME@),
            FilterExpr::WithComponent(H::NAME@),
            FilterExpr::WithComponent(I::NAME@),
        ]) by {
            lemma_member_views(members@);
        }
        expr
    }
}

impl<
    A: Component,
    B: Component,
    C: Component,
    D: Component,
    E: Component,
    F: Component,
    G: Component,
    H: Component,
    I: Component,
> QueryFilter for Without<(A, B, C, D, E, F, G, H, I)> {
    open spec fn filter() -> FilterExpr {
        FilterExpr::And(seq![
            FilterExpr::WithoutComponent(A::NAME@),
            FilterExpr::WithoutComponent(B::NAME@),
            FilterExpr::WithoutComponent(C::NAME@),
            FilterExpr::WithoutComponent(D::NAME@),
            FilterExpr::WithoutComponent(E::NAME@),
            FilterExpr::WithoutComponent(F::NAME@),
            FilterExpr::WithoutComponent(G::NAME@),
            FilterExpr::WithoutComponent(H::NAME@),
            FilterExpr::WithoutComponent(I::NAME@),
        ])
    }

    fn filter_expression() -> (expr: FilterExpression) {
        let mut members: Vec<FilterExpression> = Vec::new();
        members.push(FilterExpression::without_component(A::component_name()));
        members.push(FilterExpression::without_component(B::component_name()));
        members.push(FilterExpression::without_component(C::component_name()));
        members.push(FilterExpression::without_component(D::component_name()));
        members.push(FilterExpression::without_component(E::component_name()));
        members.push(FilterExpression::without_component(F::component_name()));
        members.push(FilterExpression::without_component(G::component_name()));
        members.push(FilterExpression::without_component(H::component_name()));
        members.push(FilterExpression::without_component(I::component_name()));
        let expr = FilterExpression::and(members);
        assert(expr@->And_0 =~= seq![
            FilterExpr::WithoutComponent(A::NAME@),
            FilterExpr::WithoutComponent(B::NAME@),
            FilterExpr::WithoutComponent(C::NAME@),
            FilterExpr::WithoutComponent(D::NAME@),
            FilterExpr::WithoutComponent(E::NAME@),
            FilterExpr::WithoutComponent(F::NAME@),
            FilterExpr::WithoutComponent(G::NAME@),
            FilterExpr::WithoutComponent(H::NAME@),
            FilterExpr::WithoutComponent(I::NAME@),
        ]) by {
            lemma_member_views(members@);
        }
        expr
    }
}

impl<
    A: QueryData,
    B: QueryData,
    C: QueryData,
    D: QueryData,
    E: QueryData,
    F: QueryData,
    G: QueryData,
    H: QueryData,
    I: QueryData,
    J: QueryData,
> QueryData for (A, B, C, D, E, F, G, H, I, J) {
    open spec fn filter() -> FilterExpr {
        FilterExpr::And(seq![
            A::filter(),
            B::filter(),
            C::filter(),
            D::filter(),
            E::filter(),
            F::filter(),
            G::filter(),
            H::filter(),
            I::filter(),
            J::filter(),
        ])
    }

    fn filter_expression() -> (expr: FilterExpression) {
        let mut members: Vec<FilterExpression> = Vec::new();
        members.push(<A as QueryData>::filter_expression());
        members.push(<B as QueryData>::filter_expression());
        members.push(<C as QueryData>::filter_expression());
        members.push(<D as QueryData>::filter_expression());
        members.push(<E as QueryData>::filter_expression());
        members.push(<F as QueryData>::filter_expression());
        members.push(<G as QueryData>::filter_expression());
        members.push(<H as QueryData>::filter_expression());
        members.push(<I as QueryData>::filter_expression());
        members.push(<J as QueryData>::filter_expression());
        let expr = FilterExpression::and(members);
        assert(expr@->And_0 =~= seq![
            A::filter(),
            B::filter(),
            C::filter(),
            D::filter(),
            E::filter(),
            F::filter(),
            G::filter(),
            H::filter(),
            I::filter(),
            J::filter(),
        ]) by {
            lemma_member_views(members@);
        }
        expr
    }
}

impl<
    A: QueryFilterValue,
    B: QueryFilterValue,
    C: QueryFilterValue,
    D: QueryFilterValue,
    E: QueryFilterValue,
    F: QueryFilterValue,
    G: QueryFilterValue,
    H: QueryFilterValue,
    I: QueryFilterValue,
    J: QueryFilterValue,
> QueryFilterValue for (A, B, C, D, E, F, G, H, I, J) {
    open spec fn filterable(&self) -> bool {
        &&& self.0.filterable()
        &&& self.1.filterable()
        &&& self.2.filterable()
        &&& self.3.filterable()
        &&& self.4.filterable()
        &&& self.5.filterable()
        &&& self.6.filterable()
        &&& self.7.filterable()
        &&& self.8.filterable()
        &&& self.9.filterable()
    }

    open spec fn filter(&self) -> FilterExpr {
        FilterExpr::And(seq![
            self.0.filter(),
            self.1.filter(),
            self.2.filter(),
            self.3.filter(),
            self.4.filter(),
            self.5.filter(),
            self.6.filter(),
            self.7.filter(),
            self.8.filter(),
            self.9.filter(),
        ])
    }

    fn is_filterable(&self) -> (filterable: bool) {
        self.0.is_filterable()
            && self.1.is_filterable()
            && self.2.is_filterable()
            && self.3.is_filterable()
            && self.4.is_filterable()
            && self.5.is_filterable()
            && self.6.is_filterable()
            && self.7.is_filterable()
            && self.8.is_filterable()
            && self.9.is_filterable()
    }

    fn filter_expression(&self) -> (expr: FilterExpression) {
        let mut members: Vec<FilterExpression> = Vec::new();
        members.push(self.0.filter_expression());
        members.push(self.1.filter_expression());
        members.push(self.2.filter_expression());
        members.push(self.3.filter_expression());
        members.push(self.4.filter_expression());
        members.push(self.5.filter_expression());
        members.push(self.6.filter_expression());
        members.push(self.7.filter_expression());
        members.push(self.8.filter_expression());
        members.push(self.9.filter_expression());
        let expr = FilterExpression::and(members);
        assert(expr@->And_0 =~= seq![
            self.0.filter(),
            self.1.filter(),
            self.2.filter(),
            self.3.filter(),
            self.4.filter(),
            self.5.filter(),
            self.6.filter(),
            self.7.filter(),
            self.8.filter(),
            self.9.filter(),
        ]) by {
            lemma_member_views(members@);
        }
        expr
    }
}

impl<
    A: QueryFilter,
    B: QueryFilter,
    C: QueryFilter,
    D: QueryFilter,
    E: QueryFilter,
    F: QueryFilter,
    G: QueryFilter,
    H: QueryFilter,
    I: QueryFilter,
    J: QueryFilter,
> QueryFilter for (A, B, C, D, E, F, G, H, I, J) {
    open spec fn filter() -> FilterExpr {
        FilterExpr::And(seq![
            A::filter(),
            B::filter(),
            C::filter(),
            D::filter(),
            E::filter(),
            F::filter(),
            G::filter(),
            H::filter(),
            I::filter(),
            J::filter(),
        ])
    }

    fn filter_expression() -> (expr: FilterExpression) {
        let mut members: Vec<FilterExpression> = Vec::new();
        members.push(<A as QueryFilter>::filter_expression());
        members.push(<B as QueryFilter>::filter_expression());
        members.push(<C as QueryFilter>::filter_expression());
        members.push(<D as QueryFilter>::filter_expression());
        members.push(<E as QueryFilter>::filter_expression());
        members.push(<F as QueryFilter>::filter_expression());
        members.push(<G as QueryFilter>::filter_expression());
        members.push(<H as QueryFilter>::filter_expression());
        members.push(<I as QueryFilter>::filter_expression());
        members.push(<J as QueryFilter>::filter_expression());
        let expr = FilterExpression::and(members);
        assert(expr@->And_0 =~= seq![
            A::filter(),
            B::filter(),
            C::filter(),
            D::filter(),
            E::filter(),
            F::filter(),
            G::filter(),
            H::filter(),
            I::filter(),
            J::filter(),
        ]) by {
            lemma_member_views(members@);
        }
        expr
    }
}

impl<
    A: QueryFilter,
    B: QueryFilter,
    C: QueryFilter,
    D: QueryFilter,
    E: QueryFilter,
    F: QueryFilter,
    G: QueryFilter,
    H: QueryFilter,
    I: QueryFilter,
    J: QueryFilter,
> QueryFilter for Or<(A, B, C, D, E, F, G, H, I, J)> {
    open spec fn filter() -> FilterExpr {
        FilterExpr::Or(seq![
            A::filter(),
            B::filter(),
            C::filter(),
            D::filter(),
            E::filter(),
            F::filter(),
            G::filter(),
            H::filter(),
            I::filter(),
            J::filter(),
        ])
    }

    fn filter_expression() -> (expr: FilterExpression) {
        let mut members: Vec<FilterExpression> = Vec::new();
        members.push(<A as QueryFilter>::filter_expression());
        members.push(<B as QueryFilter>::filter_expression());
        members.push(<C as QueryFilter>::filter_expression());
        members.push(<D as QueryFilter>::filter_expression());
        members.push(<E as QueryFilter>::filter_expression());
        members.push(<F as QueryFilter>::filter_expression());
        members.push(<G as QueryFilter>::filter_expression());
        members.push(<H as QueryFilter>::filter_expression());
        members.push(<I as QueryFilter>::filter_expression());
        members.push(<J as QueryFilter>::filter_expression());
        let expr = FilterExpression::or(members);
        assert(expr@->Or_0 =~= seq![
            A::filter(),
            B::filter(),
            C::filter(),
            D::filter(),
            E::filter(),
            F::filter(),
            G::filter(),
            H::filter(),
            I::filter(),
            J::filter(),
        ]) by {
            lemma_member_views(members@);
        }
        expr
    }
}

impl<
    A: Component,
    B: Component,
    C: Component,
    D: Component,
    E: Component,
    F: Component,
    G: Component,
    H: Component,
    I: Component,
    J: Component,
> QueryFilter for With<(A, B, C, D, E, F, G, H, I, J)> {
    open spec fn filter() -> FilterExpr {
        FilterExpr::And(seq![
            FilterExpr::WithComponent(A::NAME@),
            FilterExpr::WithComponent(B::NAME@),
            FilterExpr::WithComponent(C::NAME@),
            FilterExpr::WithComponent(D::NAME@),
            FilterExpr::WithComponent(E::NAME@),
            FilterExpr::WithComponent(F::NAME@),
            FilterExpr::WithComponent(G::NAME@),
            FilterExpr::WithComponent(H::NAME@),
            FilterExpr::WithComponent(I::NAME@),
            FilterExpr::WithComponent(J::NAME@),
        ])
    }

    fn filter_expression() -> (expr: FilterExpression) {
        let mut members: Vec<FilterExpression> = Vec::new();
        members.push(FilterExpression::with_component(A::component_name()));
        members.push(FilterExpression::with_component(B::component_name()));
        members.push(FilterExpression::with_component(C::component_name()));
        members.push(FilterExpression::with_component(D::component_name()));
        members.push(FilterExpression::with_component(E::component_name()));
        members.push(FilterExpression::with_component(F::component_name()));
        members.push(FilterExpression::with_component(G::component_name()));
        members.push(FilterExpression::with_component(H::component_name()));
        members.push(FilterExpression::with_component(I::component_name()));
        members.push(FilterExpression::with_component(J::component_name()));
        let expr = FilterExpression::and(members);
        assert(expr@->And_0 =~= seq![
            FilterExpr::WithComponent(A::NAME@),
            FilterExpr::WithComponent(B::NAME@),
            FilterExpr::WithComponent(C::NAME@),
            FilterExpr::WithComponent(D::NAME@),
            FilterExpr::WithComponent(E::NAME@),
            FilterExpr::WithComponent(F::NAME@),
            FilterExpr::WithComponent(G::NAME@),
            FilterExpr::WithComponent(H::NAME@),
            FilterExpr::WithComponent(I::NAME@),
            FilterExpr::WithComponent(J::NAME@),
        ]) by {
            lemma_member_views(members@);
        }
        expr
    }
}

impl<
    A: Component,
    B: Component,
    C: Component,
    D: Component,
    E: Component,
    F: Component,
    G: Component,
    H: Component,
    I: Component,
    J: Component,
> QueryFilter for Without<(A, B, C, D, E, F, G, H, I, J)> {
    open spec fn filter() -> FilterExpr {
        FilterExpr::And(seq![
            FilterExpr::WithoutComponent(A::NAME@),
            FilterExpr::WithoutComponent(B::NAME@),
            FilterExpr::WithoutComponent(C::NAME@),
            FilterExpr::WithoutComponent(D::NAME@),
            FilterExpr::WithoutComponent(E::NAME@),
            FilterExpr::WithoutComponent(F::NAME@),
            FilterExpr::WithoutComponent(G::NAME@),
            FilterExpr::WithoutComponent(H::NAME@),
            FilterExpr::WithoutComponent(I::NAME@),
            FilterExpr::WithoutComponent(J::NAME@),
        ])
    }

    fn filter_expression() -> (expr: FilterExpression) {
        let mut members: Vec<FilterExpression> = Vec::new();
        members.push(FilterExpression::without_component(A::component_name()));
        members.push(FilterExpression::without_component(B::component_name()));
        members.push(FilterExpression::without_component(C::component_name()));
        members.push(FilterExpression::without_component(D::component_name()));
        members.push(FilterExpression::without_component(E::component_name()));
        members.push(FilterExpression::without_component(F::component_name()));
        members.push(FilterExpression::without_component(G::component_name()));
        members.push(FilterExpression::without_component(H::component_name()));
        members.push(FilterExpression::without_component(I::component_name()));
        members.push(FilterExpression::without_component(J::component_name()));
        let expr = FilterExpression::and(members);
        assert(expr@->And_0 =~= seq![
            FilterExpr::WithoutComponent(A::NAME@),
            FilterExpr::WithoutComponent(B::NAME@),
            FilterExpr::WithoutComponent(C::NAME@),
            FilterExpr::WithoutComponent(D::NAME@),
            FilterExpr::WithoutComponent(E::NAME@),
            FilterExpr::WithoutComponent(F::NAME@),
            FilterExpr::WithoutComponent(G::NAME@),
            FilterExpr::WithoutComponent(H::NAME@),
            FilterExpr::WithoutComponent(I::NAME@),
            FilterExpr::WithoutComponent(J::NAME@),
        ]) by {
            lemma_member_views(members@);
        }
        expr
    }
}

impl<
    A: QueryData,
    B: QueryData,
    C: QueryData,
    D: QueryData,
    E: QueryData,
    F: QueryData,
    G: QueryData,
    H: QueryData,
    I: QueryData,
    J: QueryData,
    K: QueryData,
> QueryData for (A, B, C, D, E, F, G, H, I, J, K) {
    open spec fn filter() -> FilterExpr {
        FilterExpr::And(seq![
            A::filter(),
            B::filter(),
            C::filter(),
            D::filter(),
            E::filter(),
            F::filter(),
            G::filter(),
            H::filter(),
            I::filter(),
            J::filter(),
            K::filter(),
        ])
    }

    fn filter_expression() -> (expr: FilterExpression) {
        let mut members: Vec<FilterExpression> = Vec::new();
        members.push(<A as QueryData>::filter_expression());
        members.push(<B as QueryData>::filter_expression());
        members.push(<C as QueryData>::filter_expression());
        members.push(<D as QueryData>::filter_expression());
        members.push(<E as QueryData>::filter_expression());
        members.push(<F as QueryData>::filter_expression());
        members.push(<G as QueryData>::filter_expression());
        members.push(<H as QueryData>::filter_expression());
        members.push(<I as QueryData>::filter_expression());
        members.push(<J as QueryData>::filter_expression());
        members.push(<K as QueryData>::filter_expression());
        let expr = FilterExpression::and(members);
        assert(expr@->And_0 =~= seq![
            A::filter(),
            B::filter(),
            C::filter(),
            D::filter(),
            E::filter(),
            F::filter(),
            G::filter(),
            H::filter(),
            I::filter(),
            J::filter(),
            K::filter(),
        ]) by {
            lemma_member_views(members@);
        }
        expr
    }
}

impl<
    A: QueryFilterValue,
    B: QueryFilterValue,
    C: QueryFilterValue,
    D: QueryFilterValue,
    E: QueryFilterValue,
    F: QueryFilterValue,
    G: QueryFilterValue,
    H: QueryFilterValue,
    I: QueryFilterValue,
    J: QueryFilterValue,
    K: QueryFilterValue,
> QueryFilterValue for (A, B, C, D, E, F, G, H, I, J, K) {
    open spec fn filterable(&self) -> bool {
        &&& self.0.filterable()
        &&& self.1.filterable()
        &&& self.2.filterable()
        &&& self.3.filterable()
        &&& self.4.filterable()
        &&& self.5.filterable()
        &&& self.6.filterable()
        &&& self.7.filterable()
        &&& self.8.filterable()
        &&& self.9.filterable()
        &&& self.10.filterable()
    }

    open spec fn filter(&self) -> FilterExpr {
        FilterExpr::And(seq![
            self.0.filter(),
            self.1.filter(),
            self.2.filter(),
            self.3.filter(),
            self.4.filter(),
            self.5.filter(),
            self.6.filter(),
            self.7.filter(),
            self.8.filter(),
            self.9.filter(),
            self.10.filter(),
        ])
    }

    fn is_filterable(&self) -> (filterable: bool) {
        self.0.is_filterable()
            && self.1.is_filterable()
            && self.2.is_filterable()
            && self.3.is_filterable()
            && self.4.is_filterable()
            && self.5.is_filterable()
            && self.6.is_filterable()
            && self.7.is_filterable()
            && self.8.is_filterable()
            && self.9.is_filterable()
            && self.10.is_filterable()
    }

    fn filter_expression(&self) -> (expr: FilterExpression) {
        let mut members: Vec<FilterExpression> = Vec::new();
        members.push(self.0.filter_expression());
        members.push(self.1.filter_expression());
        members.push(self.2.filter_expression());
        members.push(self.3.filter_expression());
        members.push(self.4.filter_expression());
        members.push(self.5.filter_expression());
        members.push(self.6.filter_expression());
        members.push(self.7.filter_expression());
        members.push(self.8.filter_expression());
        members.push(self.9.filter_expression());
        members.push(self.10.filter_expression());
        let expr = FilterExpression::and(members);
        assert(expr@->And_0 =~= seq![
            self.0.filter(),
            self.1.filter(),
            self.2.filter(),
            self.3.filter(),
            self.4.filter(),
            self.5.filter(),
            self.6.filter(),
            self.7.filter(),
            self.8.filter(),
            self.9.filter(),
            self.10.filter(),
        ]) by {
            lemma_member_views(members@);
        }
        expr
    }
}

impl<
    A: QueryFilter,
    B: QueryFilter,
    C: QueryFilter,
    D: QueryFilter,
    E: QueryFilter,
    F: QueryFilter,
    G: QueryFilter,
    H: QueryFilter,
    I: QueryFilter,
    J: QueryFilter,
    K: QueryFilter,
> QueryFilter for (A, B, C, D, E, F, G, H, I, J, K) {
    open spec fn filter() -> FilterExpr {
        FilterExpr::And(seq![
            A::filter(),
            B::filter(),
            C::filter(),
            D::filter(),
            E::filter(),
            F::filter(),
            G::filter(),
            H::filter(),
            I::filter(),
            J::filter(),
            K::filter(),
        ])
    }

    fn filter_expression() -> (expr: FilterExpression) {
        let mut members: Vec<FilterExpression> = Vec::new();
        members.push(<A as QueryFilter>::filter_expression());
        members.push(<B as QueryFilter>::filter_expression());
        members.push(<C as QueryFilter>::filter_expression());
        members.push(<D as QueryFilter>::filter_expression());
        members.push(<E as QueryFilter>::filter_expression());
        members.push(<F as QueryFilter>::filter_expression());
        members.push(<G as QueryFilter>::filter_expression());
        members.push(<H as QueryFilter>::filter_expression());
        members.push(<I as QueryFilter>::filter_expression());
        members.push(<J as QueryFilter>::filter_expression());
        members.push(<K as QueryFilter>::filter_expression());
        let expr = FilterExpression::and(members);
        assert(expr@->And_0 =~= seq![
            A::filter(),
            B::filter(),
            C::filter(),
            D::filter(),
            E::filter(),
            F::filter(),
            G::filter(),
            H::filter(),
            I::filter(),
            J::filter(),
            K::filter(),
        ]) by {
            lemma_member_views(members@);
        }
        expr
    }
}

impl<
    A: QueryFilter,
    B: QueryFilter,
    C: QueryFilter,
    D: QueryFilter,
    E: QueryFilter,
    F: QueryFilter,
    G: QueryFilter,
    H: QueryFilter,
    I: QueryFilter,
    J: QueryFilter,
    K: QueryFilter,
> QueryFilter for Or<(A, B, C, D, E, F, G, H, I, J, K)> {
    open spec fn filter() -> FilterExpr {
        FilterExpr::Or(seq![
            A::filter(),
            B::filter(),
            C::filter(),
            D::filter(),
            E::filter(),
            F::filter(),
            G::filter(),
            H::filter(),
            I::filter(),
            J::filter(),
            K::filter(),
        ])
    }

    fn filter_expression() -> (expr: FilterExpression) {
        let mut members: Vec<FilterExpression> = Vec::new();
        members.push(<A as QueryFilter>::filter_expression());
        members.push(<B as QueryFilter>::filter_expression());
        members.push(<C as QueryFilter>::filter_expression());
        members.push(<D as QueryFilter>::filter_expression());
        members.push(<E as QueryFilter>::filter_expression());
        members.push(<F as QueryFilter>::filter_expression());
        members.push(<G as QueryFilter>::filter_expression());
        members.push(<H as QueryFilter>::filter_expression());
        members.push(<I as QueryFilter>::filter_expression());
        members.push(<J as QueryFilter>::filter_expression());
        members.push(<K as QueryFilter>::filter_expression());
        let expr = FilterExpression::or(members);
        assert(expr@->Or_0 =~= seq![
            A::filter(),
            B::filter(),
            C::filter(),
            D::filter(),
            E::filter(),
            F::filter(),
            G::filter(),
            H::filter(),
            I::filter(),
            J::filter(),
            K::filter(),
        ]) by {
            lemma_member_views(members@);
        }
        expr
    }
}

impl<
    A: Component,
    B: Component,
    C: Component,
    D: Component,
    E: Component,
    F: Component,
    G: Component,
    H: Component,
    I: Component,
    J: Component,
    K: Component,
> QueryFilter for With<(A, B, C, D, E, F, G, H, I, J, K)> {
    open spec fn filter() -> FilterExpr {
        FilterExpr::And(seq![
            FilterExpr::WithComponent(A::NAME@),
            FilterExpr::WithComponent(B::NAME@),
            FilterExpr::WithComponent(C::NAME@),
            FilterExpr::WithComponent(D::NAME@),
            FilterExpr::WithComponent(E::NAME@),
            FilterExpr::WithComponent(F::NAME@),
            FilterExpr::WithComponent(G::NAME@),
            FilterExpr::WithComponent(H::NAME@),
            FilterExpr::WithComponent(I::NAME@),
            FilterExpr::WithComponent(J::NAME@),
            FilterExpr::WithComponent(K::NAME@),
        ])
    }

    fn filter_expression() -> (expr: FilterExpression) {
        let mut members: Vec<FilterExpression> = Vec::new();
        members.push(FilterExpression::with_component(A::component_name()));
        members.push(FilterExpression::with_component(B::component_name()));
        members.push(FilterExpression::with_component(C::component_name()));
        members.push(FilterExpression::with_component(D::component_name()));
        members.push(FilterExpression::with_component(E::component_name()));
        members.push(FilterExpression::with_component(F::component_name()));
        members.push(FilterExpression::with_component(G::component_name()));
        members.push(FilterExpression::with_component(H::component_name()));
        members.push(FilterExpression::with_component(I::component_name()));
        members.push(FilterExpression::with_component(J::component_name()));
        members.push(FilterExpression::with_component(K::component_name()));
        let expr = FilterExpression::and(members);
        assert(expr@->And_0 =~= seq![
            FilterExpr::WithComponent(A::NAME@),
            FilterExpr::WithComponent(B::NAME@),
            FilterExpr::WithComponent(C::NAME@),
            FilterExpr::WithComponent(D::NAME@),
            FilterExpr::WithComponent(E::NAME@),
            FilterExpr::WithComponent(F::NAME@),
            FilterExpr::WithComponent(G::NAME@),
            FilterExpr::WithComponent(H::NAME@),
            FilterExpr::WithComponent(I::NAME@),
            FilterExpr::WithComponent(J::NAME@),
            FilterExpr::WithComponent(K::NAME@),
        ]) by {
            lemma_member_views(members@);
        }
        expr
    }
}

impl<
    A: Component,
    B: Component,
    C: Component,
    D: Component,
    E: Component,
    F: Component,
    G: Component,
    H: Component,
    I: Component,
    J: Component,
    K: Component,
> QueryFilter for Without<(A, B, C, D, E, F, G, H, I, J, K)> {
    open spec fn filter() -> FilterExpr {
        FilterExpr::And(seq![
            FilterExpr::WithoutComponent(A::NAME@),
            FilterExpr::WithoutComponent(B::NAME@),
            FilterExpr::WithoutComponent(C::NAME@),
            FilterExpr::WithoutComponent(D::NAME@),
            FilterExpr::WithoutComponent(E::NAME@),
            FilterExpr::WithoutComponent(F::NAME@),
            FilterExpr::WithoutComponent(G::NAME@),
            FilterExpr::WithoutComponent(H::NAME@),
            FilterExpr::WithoutComponent(I::NAME@),
            FilterExpr::WithoutComponent(J::NAME@),
            FilterExpr::WithoutComponent(K::NAME@),
        ])
    }

    fn filter_expression() -> (expr: FilterExpression) {
        let mut members: Vec<FilterExpression> = Vec::new();
        members.push(FilterExpression::without_component(A::component_name()));
        members.push(FilterExpression::without_component(B::component_name()));
        members.push(FilterExpression::without_component(C::component_name()));
        members.push(FilterExpression::without_component(D::component_name()));
        members.push(FilterExpression::without_component(E::component_name()));
        members.push(FilterExpression::without_component(F::component_name()));
        members.push(FilterExpression::without_component(G::component_name()));
        members.push(FilterExpression::without_component(H::component_name()));
        members.push(FilterExpression::without_component(I::component_name()));
        members.push(FilterExpression::without_component(J::component_name()));
        members.push(FilterExpression::without_component(K::component_name()));
        let expr = FilterExpression::and(members);
        assert(expr@->And_0 =~= seq![
            FilterExpr::WithoutComponent(A::NAME@),
            FilterExpr::WithoutComponent(B::NAME@),
            FilterExpr::WithoutComponent(C::NAME@),
            FilterExpr::WithoutComponent(D::NAME@),
            FilterExpr::WithoutComponent(E::NAME@),
            FilterExpr::WithoutComponent(F::NAME@),
            FilterExpr::WithoutComponent(G::NAME@),
            FilterExpr::WithoutComponent(H::NAME@),
            FilterExpr::WithoutComponent(I::NAME@),
            FilterExpr::WithoutComponent(J::NAME@),
            FilterExpr::WithoutComponent(K::NAME@),
        ]) by {
            lemma_member_views(members@);
        }
        expr
    }
}

impl<
    A: QueryData,
    B: QueryData,
    C: QueryData,
    D: QueryData,
    E: QueryData,
    F: QueryData,
    G: QueryData,
    H: QueryData,
    I: QueryData,
    J: QueryData,
    K: QueryData,
    L: QueryData,
> QueryData for (A, B, C, D, E, F, G, H, I, J, K, L) {
    open spec fn filter() -> FilterExpr {
        FilterExpr::And(seq![
            A::filter(),
            B::filter(),
            C::filter(),
            D::filter(),
            E::filter(),
            F::filter(),
            G::filter(),
            H::filter(),
            I::filter(),
            J::filter(),
            K::filter(),
            L::filter(),
        ])
    }

    fn filter_expression() -> (expr: FilterExpression) {
        let mut members: Vec<FilterExpression> = Vec::new();
        members.push(<A as QueryData>::filter_expression());
        members.push(<B as QueryData>::filter_expression());
        members.push(<C as QueryData>::filter_expression());
        members.push(<D as QueryData>::filter_expression());
        members.push(<E as QueryData>::filter_expression());
        members.push(<F as QueryData>::filter_expression());
        members.push(<G as QueryData>::filter_expression());
        members.push(<H as QueryData>::filter_expression());
        members.push(<I as QueryData>::filter_expression());
        members.push(<J as QueryData>::filter_expression());
        members.push(<K as QueryData>::filter_expression());
        members.push(<L as QueryData>::filter_expression());
        let expr = FilterExpression::and(members);
        assert(expr@->And_0 =~= seq![
            A::filter(),
            B::filter(),
            C::filter(),
            D::filter(),
            E::filter(),
            F::filter(),
            G::filter(),
            H::filter(),
            I::filter(),
            J::filter(),
            K::filter(),
            L::filter(),
        ]) by {
            lemma_member_views(members@);
        }
        expr
    }
}

impl<
    A: QueryFilterValue,
    B: QueryFilterValue,
    C: QueryFilterValue,
    D: QueryFilterValue,
    E: QueryFilterValue,
    F: QueryFilterValue,
    G: QueryFilterValue,
    H: QueryFilterValue,
    I: QueryFilterValue,
    J: QueryFilterValue,
    K: QueryFilterValue,
    L: QueryFilterValue,
> QueryFilterValue for (A, B, C, D, E, F, G, H, I, J, K, L) {
    open spec fn filterable(&self) -> bool {
        &&& self.0.filterable()
        &&& self.1.filterable()
        &&& self.2.filterable()
        &&& self.3.filterable()
        &&& self.4.filterable()
        &&& self.5.filterable()
        &&& self.6.filterable()
        &&& self.7.filterable()
        &&& self.8.filterable()
        &&& self.9.filterable()
        &&& self.10.filterable()
        &&& self.11.filterable()
    }

    open spec fn filter(&self) -> FilterExpr {
        FilterExpr::And(seq![
            self.0.filter(),
            self.1.filter(),
            self.2.filter(),
            self.3.filter(),
            self.4.filter(),
            self.5.filter(),
            self.6.filter(),
            self.7.filter(),
            self.8.filter(),
            self.9.filter(),
            self.10.filter(),
            self.11.filter(),
        ])
    }

    fn is_filterable(&self) -> (filterable: bool) {
        self.0.is_filterable()
            && self.1.is_filterable()
            && self.2.is_filterable()
            && self.3.is_filterable()
            && self.4.is_filterable()
            && self.5.is_filterable()
            && self.6.is_filterable()
            && self.7.is_filterable()
            && self.8.is_filterable()
            && self.9.is_filterable()
            && self.10.is_filterable()
            && self.11.is_filterable()
    }

    fn filter_expression(&self) -> (expr: FilterExpression) {
        let mut members: Vec<FilterExpression> = Vec::new();
        members.push(self.0.filter_expression());
        members.push(self.1.filter_expression());
        members.push(self.2.filter_expression());
        members.push(self.3.filter_expression());
        members.push(self.4.filter_expression());
        members.push(self.5.filter_expression());
        members.push(self.6.filter_expression());
        members.push(self.7.filter_expression());
        members.push(self.8.filter_expression());
        members.push(self.9.filter_expression());
        members.push(self.10.filter_expression());
        members.push(self.11.filter_expression());
        let expr = FilterExpression::and(members);
        assert(expr@->And_0 =~= seq![
            self.0.filter(),
            self.1.filter(),
            self.2.filter(),
            self.3.filter(),
            self.4.filter(),
            self.5.filter(),
            self.6.filter(),
            self.7.filter(),
            self.8.filter(),
            self.9.filter(),
            self.10.filter(),
            self.11.filter(),
        ]) by {
            lemma_member_views(members@);
        }
        expr
    }
}

impl<
    A: QueryFilter,
    B: QueryFilter,
    C: QueryFilter,
    D: QueryFilter,
    E: QueryFilter,
    F: QueryFilter,
    G: QueryFilter,
    H: QueryFilter,
    I: QueryFilter,
    J: QueryFilter,
    K: QueryFilter,
    L: QueryFilter,
> QueryFilter for (A, B, C, D, E, F, G, H, I, J, K, L) {
    open spec fn filter() -> FilterExpr {
        FilterExpr::And(seq![
            A::filter(),
            B::filter(),
            C::filter(),
            D::filter(),
            E::filter(),
            F::filter(),
            G::filter(),
            H::filter(),
            I::filter(),
            J::filter(),
            K::filter(),
            L::filter(),
        ])
    }

    fn filter_expression() -> (expr: FilterExpression) {
        let mut members: Vec<FilterExpression> = Vec::new();
        members.push(<A as QueryFilter>::filter_expression());
        members.push(<B as QueryFilter>::filter_expression());
        members.push(<C as QueryFilter>::filter_expression());
        members.push(<D as QueryFilter>::filter_expression());
        members.push(<E as QueryFilter>::filter_expression());
        members.push(<F as QueryFilter>::filter_expression());
        members.push(<G as QueryFilter>::filter_expression());
        members.push(<H as QueryFilter>::filter_expression());
        members.push(<I as QueryFilter>::filter_expression());
        members.push(<J as QueryFilter>::filter_expression());
        members.push(<K as QueryFilter>::filter_expression());
        members.push(<L as QueryFilter>::filter_expression());
        let expr = FilterExpression::and(members);
        assert(expr@->And_0 =~= seq![
            A::filter(),
            B::filter(),
            C::filter(),
            D::filter(),
            E::filter(),
            F::filter(),
            G::filter(),
            H::filter(),
            I::filter(),
            J::filter(),
            K::filter(),
            L::filter(),
        ]) by {
            lemma_member_views(members@);
        }
        expr
    }
}

impl<
    A: QueryFilter,
    B: QueryFilter,
    C: QueryFilter,
    D: QueryFilter,
    E: QueryFilter,
    F: QueryFilter,
    G: QueryFilter,
    H: QueryFilter,
    I: QueryFilter,
    J: QueryFilter,
    K: QueryFilter,
    L: QueryFilter,
> QueryFilter for Or<(A, B, C, D, E, F, G, H, I, J, K, L)> {
    open spec fn filter() -> FilterExpr {
        FilterExpr::Or(seq![
            A::filter(),
            B::filter(),
            C::filter(),
            D::filter(),
            E::filter(),
            F::filter(),
            G::filter(),
            H::filter(),
            I::filter(),
            J::filter(),
            K::filter(),
            L::filter(),
        ])
    }

    fn filter_expression() -> (expr: FilterExpression) {
        let mut members: Vec<FilterExpression> = Vec::new();
        members.push(<A as QueryFilter>::filter_expression());
        members.push(<B as QueryFilter>::filter_expression());
        members.push(<C as QueryFilter>::filter_expression());
        members.push(<D as QueryFilter>::filter_expression());
        members.push(<E as QueryFilter>::filter_expression());
        members.push(<F as QueryFilter>::filter_expression());
        members.push(<G as QueryFilter>::filter_expression());
        members.push(<H as QueryFilter>::filter_expression());
        members.push(<I as QueryFilter>::filter_expression());
        members.push(<J as QueryFilter>::filter_expression());
        members.push(<K as QueryFilter>::filter_expression());
        members.push(<L as QueryFilter>::filter_expression());
        let expr = FilterExpression::or(members);
        assert(expr@->Or_0 =~= seq![
            A::filter(),
            B::filter(),
            C::filter(),
            D::filter(),
            E::filter(),
            F::filter(),
            G::filter(),
            H::filter(),
            I::filter(),
            J::filter(),
            K::filter(),
            L::filter(),
        ]) by {
            lemma_member_views(members@);
        }
        expr
    }
}

impl<
    A: Component,
    B: Component,
    C: Component,
    D: Component,
    E: Component,
    F: Component,
    G: Component,
    H: Component,
    I: Component,
    J: Component,
    K: Component,
    L: Component,
> QueryFilter for With<(A, B, C, D, E, F, G, H, I, J, K, L)> {
    open spec fn filter() -> FilterExpr {
        FilterExpr::And(seq![
            FilterExpr::WithComponent(A::NAME@),
            FilterExpr::WithComponent(B::NAME@),
            FilterExpr::WithComponent(C::NAME@),
            FilterExpr::WithComponent(D::NAME@),
            FilterExpr::WithComponent(E::NAME@),
            FilterExpr::WithComponent(F::NAME@),
            FilterExpr::WithComponent(G::NAME@),
            FilterExpr::WithComponent(H::NAME@),
            FilterExpr::WithComponent(I::NAME@),
            FilterExpr::WithComponent(J::NAME@),
            FilterExpr::WithComponent(K::NAME@),
            FilterExpr::WithComponent(L::NAME@),
        ])
    }

    fn filter_expression() -> (expr: FilterExpression) {
        let mut members: Vec<FilterExpression> = Vec::new();
        members.push(FilterExpression::with_component(A::component_name()));
        members.push(FilterExpression::with_component(B::component_name()));
        members.push(FilterExpression::with_component(C::component_name()));
        members.push(FilterExpression::with_component(D::component_name()));
        members.push(FilterExpression::with_component(E::component_name()));
        members.push(FilterExpression::with_component(F::component_name()));
        members.push(FilterExpression::with_component(G::component_name()));
        members.push(FilterExpression::with_component(H::component_name()));
        members.push(FilterExpression::with_component(I::component_name()));
        members.push(FilterExpression::with_component(J::component_name()));
        members.push(FilterExpression::with_component(K::component_name()));
        members.push(FilterExpression::with_component(L::component_name()));
        let expr = FilterExpression::and(members);
        assert(expr@->And_0 =~= seq![
            FilterExpr::WithComponent(A::NAME@),
            FilterExpr::WithComponent(B::NAME@),
            FilterExpr::WithComponent(C::NAME@),
            FilterExpr::WithComponent(D::NAME@),
            FilterExpr::WithComponent(E::NAME@),
            FilterExpr::WithComponent(F::NAME@),
            FilterExpr::WithComponent(G::NAME@),
            FilterExpr::WithComponent(H::NAME@),
            FilterExpr::WithComponent(I::NAME@),
            FilterExpr::WithComponent(J::NAME@),
            FilterExpr::WithComponent(K::NAME@),
            FilterExpr::WithComponent(L::NAME@),
        ]) by {
            lemma_member_views(members@);
        }
        expr
    }
}

impl<
    A: Component,
    B: Component,
    C: Component,
    D: Component,
    E: Component,
    F: Component,
    G: Component,
    H: Component,
    I: Component,
    J: Component,
    K: Component,
    L: Component,
> QueryFilter for Without<(A, B, C, D, E, F, G, H, I, J, K, L)> {
    open spec fn filter() -> FilterExpr {
        FilterExpr::And(seq![
            FilterExpr::WithoutComponent(A::NAME@),
            FilterExpr::WithoutComponent(B::NAME@),
            FilterExpr::WithoutComponent(C::NAME@),
            FilterExpr::WithoutComponent(D::NAME@),
            FilterExpr::WithoutComponent(E::NAME@),
            FilterExpr::WithoutComponent(F::NAME@),
            FilterExpr::WithoutComponent(G::NAME@),
            FilterExpr::WithoutComponent(H::NAME@),
            FilterExpr::WithoutComponent(I::NAME@),
            FilterExpr::WithoutComponent(J::NAME@),
            FilterExpr::WithoutComponent(K::NAME@),
            FilterExpr::WithoutComponent(L::NAME@),
        ])
    }

    fn filter_expression() -> (expr: FilterExpression) {
        let mut members: Vec<FilterExpression> = Vec::new();
        members.push(FilterExpression::without_component(A::component_name()));
        members.push(FilterExpression::without_component(B::component_name()));
        members.push(FilterExpression::without_component(C::component_name()));
        members.push(FilterExpression::without_component(D::component_name()));
        members.push(FilterExpression::without_component(E::component_name()));
        members.push(FilterExpression::without_component(F::component_name()));
        members.push(FilterExpression::without_component(G::component_name()));
        members.push(FilterExpression::without_component(H::component_name()));
        members.push(FilterExpression::without_component(I::component_name()));
        members.push(FilterExpression::without_component(J::component_name()));
        members.push(FilterExpression::without_component(K::component_name()));
        members.push(FilterExpression::without_component(L::component_name()));
        let expr = FilterExpression::and(members);
        assert(expr@->And_0 =~= seq![
            FilterExpr::WithoutComponent(A::NAME@),
            FilterExpr::WithoutComponent(B::NAME@),
            FilterExpr::WithoutComponent(C::NAME@),
            FilterExpr::WithoutComponent(D::NAME@),
            FilterExpr::WithoutComponent(E::NAME@),
            FilterExpr::WithoutComponent(F::NAME@),
            FilterExpr::WithoutComponent(G::NAME@),
            FilterExpr::WithoutComponent(H::NAME@),
            FilterExpr::WithoutComponent(I::NAME@),
            FilterExpr::WithoutComponent(J::NAME@),
            FilterExpr::WithoutComponent(K::NAME@),
            FilterExpr::WithoutComponent(L::NAME@),
        ]) by {
            lemma_member_views(members@);
        }
        expr
    }
}

impl<
    A: QueryData,
    B: QueryData,
    C: QueryData,
    D: QueryData,
    E: QueryData,
    F: QueryData,
    G: QueryData,
    H: QueryData,
    I: QueryData,
    J: QueryData,
    K: QueryData,
    L: QueryData,
    M: QueryData,
> QueryData for (A, B, C, D, E, F, G, H, I, J, K, L, M) {
    open spec fn filter() -> FilterExpr {
        FilterExpr::And(seq![
            A::filter(),
            B::filter(),
            C::filter(),
            D::filter(),
            E::filter(),
            F::filter(),
            G::filter(),
            H::filter(),
            I::filter(),
            J::filter(),
            K::filter(),
            L::filter(),
            M::filter(),
        ])
    }

    fn filter_expression() -> (expr: FilterExpression) {
        let mut members: Vec<FilterExpression> = Vec::new();
        members.push(<A as QueryData>::filter_expression());
        members.push(<B as QueryData>::filter_expression());
        members.push(<C as QueryData>::filter_expression());
        members.push(<D as QueryData>::filter_expression());
        members.push(<E as QueryData>::filter_expression());
        members.push(<F as QueryData>::filter_expression());
        members.push(<G as QueryData>::filter_expression());
        members.push(<H as QueryData>::filter_expression());
        members.push(<I as QueryData>::filter_expression());
        members.push(<J as QueryData>::filter_expression());
        members.push(<K as QueryData>::filter_expression());
        members.push(<L as QueryData>::filter_expression());
        members.push(<M as QueryData>::filter_expression());
        let expr = FilterExpression::and(members);
        assert(expr@->And_0 =~= seq![
            A::filter(),
            B::filter(),
            C::filter(),
            D::filter(),
            E::filter(),
            F::filter(),
            G::filter(),
            H::filter(),
            I::filter(),
            J::filter(),
            K::filter(),
            L::filter(),
            M::filter(),
        ]) by {
            lemma_member_views(members@);
        }
        expr
    }
}

impl<
    A: QueryFilterValue,
    B: QueryFilterValue,
    C: QueryFilterValue,
    D: QueryFilterValue,
    E: QueryFilterValue,
    F: QueryFilterValue,
    G: QueryFilterValue,
    H: QueryFilterValue,
    I: QueryFilterValue,
    J: QueryFilterValue,
    K: QueryFilterValue,
    L: QueryFilterValue,
    M: QueryFilterValue,
> QueryFilterValue for (A, B, C, D, E, F, G, H, I, J, K, L, M) {
    open spec fn filterable(&self) -> bool {
        &&& self.0.filterable()
        &&& self.1.filterable()
        &&& self.2.filterable()
        &&& self.3.filterable()
        &&& self.4.filterable()
        &&& self.5.filterable()
        &&& self.6.filterable()
        &&& self.7.filterable()
        &&& self.8.filterable()
        &&& self.9.filterable()
        &&& self.10.filterable()
        &&& self.11.filterable()
        &&& self.12.filterable()
    }

    open spec fn filter(&self) -> FilterExpr {
        FilterExpr::And(seq![
            self.0.filter(),
            self.1.filter(),
            self.2.filter(),
            self.3.filter(),
            self.4.filter(),
            self.5.filter(),
            self.6.filter(),
            self.7.filter(),
            self.8.filter(),
            self.9.filter(),
            self.10.filter(),
            self.11.filter(),
            self.12.filter(),
        ])
    }

    fn is_filterable(&self) -> (filterable: bool) {
        self.0.is_filterable()
            && self.1.is_filterable()
            && self.2.is_filterable()
            && self.3.is_filterable()
            && self.4.is_filterable()
            && self.5.is_filterable()
            && self.6.is_filterable()
            && self.7.is_filterable()
            && self.8.is_filterable()
            && self.9.is_filterable()
            && self.10.is_filterable()
            && self.11.is_filterable()
            && self.12.is_filterable()
    }

    fn filter_expression(&self) -> (expr: FilterExpression) {
        let mut members: Vec<FilterExpression> = Vec::new();
        members.push(self.0.filter_expression());
        members.push(self.1.filter_expression());
        members.push(self.2.filter_expression());
        members.push(self.3.filter_expression());
        members.push(self.4.filter_expression());
        members.push(self.5.filter_expression());
        members.push(self.6.filter_expression());
        members.push(self.7.filter_expression());
        members.push(self.8.filter_expression());
        members.push(self.9.filter_expression());
        members.push(self.10.filter_expression());
        members.push(self.11.filter_expression());
        members.push(self.12.filter_expression());
        let expr = FilterExpression::and(members);
        assert(expr@->And_0 =~= seq![
            self.0.filter(),
            self.1.filter(),
            self.2.filter(),
            self.3.filter(),
            self.4.filter(),
            self.5.filter(),
            self.6.filter(),
            self.7.filter(),
            self.8.filter(),
            self.9.filter(),
            self.10.filter(),
            self.11.filter(),
            self.12.filter(),
        ]) by {
            lemma_member_views(members@);
        }
        expr
    }
}

impl<
    A: QueryFilter,
    B: QueryFilter,
    C: QueryFilter,
    D: QueryFilter,
    E: QueryFilter,
    F: QueryFilter,
    G: QueryFilter,
    H: QueryFilter,
    I: QueryFilter,
    J: QueryFilter,
    K: QueryFilter,
    L: QueryFilter,
    M: QueryFilter,
> QueryFilter for (A, B, C, D, E, F, G, H, I, J, K, L, M) {
    open spec fn filter() -> FilterExpr {
        FilterExpr::And(seq![
            A::filter(),
            B::filter(),
            C::filter(),
            D::filter(),
            E::filter(),
            F::filter(),
            G::filter(),
            H::filter(),
            I::filter(),
            J::filter(),
            K::filter(),
            L::filter(),
            M::filter(),
        ])
    }

    fn filter_expression() -> (expr: FilterExpression) {
        let mut members: Vec<FilterExpression> = Vec::new();
        members.push(<A as QueryFilter>::filter_expression());
        members.push(<B as QueryFilter>::filter_expression());
        members.push(<C as QueryFilter>::filter_expression());
        members.push(<D as QueryFilter>::filter_expression());
        members.push(<E as QueryFilter>::filter_expression());
        members.push(<F as QueryFilter>::filter_expression());
        members.push(<G as QueryFilter>::filter_expression());
        members.push(<H as QueryFilter>::filter_expression());
        members.push(<I as QueryFilter>::filter_expression());
        members.push(<J as QueryFilter>::filter_expression());
        members.push(<K as QueryFilter>::filter_expression());
        members.push(<L as QueryFilter>::filter_expression());
        members.push(<M as QueryFilter>::filter_expression());
        let expr = FilterExpression::and(members);
        assert(expr@->And_0 =~= seq![
            A::filter(),
            B::filter(),
            C::filter(),
            D::filter(),
            E::filter(),
            F::filter(),
            G::filter(),
            H::filter(),
            I::filter(),
            J::filter(),
            K::filter(),
            L::filter(),
            M::filter(),
        ]) by {
            lemma_member_views(members@);
        }
        expr
    }
}

impl<
    A: QueryFilter,
    B: QueryFilter,
    C: QueryFilter,
    D: QueryFilter,
    E: QueryFilter,
    F: QueryFilter,
    G: QueryFilter,
    H: QueryFilter,
    I: QueryFilter,
    J: QueryFilter,
    K: QueryFilter,
    L: QueryFilter,
    M: QueryFilter,
> QueryFilter for Or<(A, B, C, D, E, F, G, H, I, J, K, L, M)> {
    open spec fn filter() -> FilterExpr {
        FilterExpr::Or(seq![
            A::filter(),
            B::filter(),
            C::filter(),
            D::filter(),
            E::filter(),
            F::filter(),
            G::filter(),
            H::filter(),
            I::filter(),
            J::filter(),
            K::filter(),
            L::filter(),
            M::filter(),
        ])
    }

    fn filter_expression() -> (expr: FilterExpression) {
        let mut members: Vec<FilterExpression> = Vec::new();
        members.push(<A as QueryFilter>::filter_expression());
        members.push(<B as QueryFilter>::filter_expression());
        members.push(<C as QueryFilter>::filter_expression());
        members.push(<D as QueryFilter>::filter_expression());
        members.push(<E as QueryFilter>::filter_expression());
        members.push(<F as QueryFilter>::filter_expression());
        members.push(<G as QueryFilter>::filter_expression());
        members.push(<H as QueryFilter>::filter_expression());
        members.push(<I as QueryFilter>::filter_expression());
        members.push(<J as QueryFilter>::filter_expression());
        members.push(<K as QueryFilter>::filter_expression());
        members.push(<L as QueryFilter>::filter_expression());
        members.push(<M as QueryFilter>::filter_expression());
        let expr = FilterExpression::or(members);
        assert(expr@->Or_0 =~= seq![
            A::filter(),
            B::filter(),
            C::filter(),
            D::filter(),
            E::filter(),
            F::filter(),
            G::filter(),
            H::filter(),
            I::filter(),
            J::filter(),
            K::filter(),
            L::filter(),
            M::filter(),
        ]) by {
            lemma_member_views(members@);
        }
        expr
    }
}

impl<
    A: Component,
    B: Component,
    C: Component,
    D: Component,
    E: Component,
    F: Component,
    G: Component,
    H: Component,
    I: Component,
    J: Component,
    K: Component,
    L: Component,
    M: Component,
> QueryFilter for With<(A, B, C, D, E, F, G, H, I, J, K, L, M)> {
    open spec fn filter() -> FilterExpr {
        FilterExpr::And(seq![
            FilterExpr::WithComponent(A::NAME@),
            FilterExpr::WithComponent(B::NAME@),
            FilterExpr::WithComponent(C::NAME@),
            FilterExpr::WithComponent(D::NAME@),
            FilterExpr::WithComponent(E::NAME@),
            FilterExpr::WithComponent(F::NAME@),
            FilterExpr::WithComponent(G::NAME@),
            FilterExpr::WithComponent(H::NAME@),
            FilterExpr::WithComponent(I::NAME@),
            FilterExpr::WithComponent(J::NAME@),
            FilterExpr::WithComponent(K::NAME@),
            FilterExpr::WithComponent(L::NAME@),
            FilterExpr::WithComponent(M::NAME@),
        ])
    }

    fn filter_expression() -> (expr: FilterExpression) {
        let mut members: Vec<FilterExpression> = Vec::new();
        members.push(FilterExpression::with_component(A::component_name()));
        members.push(FilterExpression::with_component(B::component_name()));
        members.push(FilterExpression::with_component(C::component_name()));
        members.push(FilterExpression::with_component(D::component_name()));
        members.push(FilterExpression::with_component(E::component_name()));
        members.push(FilterExpression::with_component(F::component_name()));
        members.push(FilterExpression::with_component(G::component_name()));
        members.push(FilterExpression::with_component(H::component_name()));
        members.push(FilterExpression::with_component(I::component_name()));
        members.push(FilterExpression::with_component(J::component_name()));
        members.push(FilterExpression::with_component(K::component_name()));
        members.push(FilterExpression::with_component(L::component_name()));
        members.push(FilterExpression::with_component(M::component_name()));
        let expr = FilterExpression::and(members);
        assert(expr@->And_0 =~= seq![
            FilterExpr::WithComponent(A::NAME@),
            FilterExpr::WithComponent(B::NAME@),
            FilterExpr::WithComponent(C::NAME@),
            FilterExpr::WithComponent(D::NAME@),
            FilterExpr::WithComponent(E::NAME@),
            FilterExpr::WithComponent(F::NAME@),
            FilterExpr::WithComponent(G::NAME@),
            FilterExpr::WithComponent(H::NAME@),
            FilterExpr::WithComponent(I::NAME@),
            FilterExpr::WithComponent(J::NAME@),
            FilterExpr::WithComponent(K::NAME@),
            FilterExpr::WithComponent(L::NAME@),
            FilterExpr::WithComponent(M::NAME@),
        ]) by {
            lemma_member_views(members@);
        }
        expr
    }
}

impl<
    A: Component,
    B: Component,
    C: Component,
    D: Component,
    E: Component,
    F: Component,
    G: Component,
    H: Component,
    I: Component,
    J: Component,
    K: Component,
    L: Component,
    M: Component,
> QueryFilter for Without<(A, B, C, D, E, F, G, H, I, J, K, L, M)> {
    open spec fn filter() -> FilterExpr {
        FilterExpr::And(seq![
            FilterExpr::WithoutComponent(A::NAME@),
            FilterExpr::WithoutComponent(B::NAME@),
            FilterExpr::WithoutComponent(C::NAME@),
            FilterExpr::WithoutComponent(D::NAME@),
            FilterExpr::WithoutComponent(E::NAME@),
            FilterExpr::WithoutComponent(F::NAME@),
            FilterExpr::WithoutComponent(G::NAME@),
            FilterExpr::WithoutComponent(H::NAME@),
            FilterExpr::WithoutComponent(I::NAME@),
            FilterExpr::WithoutComponent(J::NAME@),
            FilterExpr::WithoutComponent(K::NAME@),
            FilterExpr::WithoutComponent(L::NAME@),
            FilterExpr::WithoutComponent(M::NAME@),
        ])
    }

    fn filter_expression() -> (expr: FilterExpression) {
        let mut members: Vec<FilterExpression> = Vec::new();
        members.push(FilterExpression::without_component(A::component_name()));
        members.push(FilterExpression::without_component(B::component_name()));
        members.push(FilterExpression::without_component(C::component_name()));
        members.push(FilterExpression::without_component(D::component_name()));
        members.push(FilterExpression::without_component(E::component_name()));
        members.push(FilterExpression::without_component(F::component_name()));
        members.push(FilterExpression::without_component(G::component_name()));
        members.push(FilterExpression::without_component(H::component_name()));
        members.push(FilterExpression::without_component(I::component_name()));
        members.push(FilterExpression::without_component(J::component_name()));
        members.push(FilterExpression::without_component(K::component_name()));
        members.push(FilterExpression::without_component(L::component_name()));
        members.push(FilterExpression::without_component(M::component_name()));
        let expr = FilterExpression::and(members);
        assert(expr@->And_0 =~= seq![
            FilterExpr::WithoutComponent(A::NAME@),
            FilterExpr::WithoutComponent(B::NAME@),
            FilterExpr::WithoutComponent(C::NAME@),
            FilterExpr::WithoutComponent(D::NAME@),
            FilterExpr::WithoutComponent(E::NAME@),
            FilterExpr::WithoutComponent(F::NAME@),
            FilterExpr::WithoutComponent(G::NAME@),
            FilterExpr::WithoutComponent(H::NAME@),
            FilterExpr::WithoutComponent(I::NAME@),
            FilterExpr::WithoutComponent(J::NAME@),
            FilterExpr::WithoutComponent(K::NAME@),
            FilterExpr::WithoutComponent(L::NAME@),
            FilterExpr::WithoutComponent(M::NAME@),
        ]) by {
            lemma_member_views(members@);
        }
        expr
    }
}

impl<
    A: QueryData,
    B: QueryData,
    C: QueryData,
    D: QueryData,
    E: QueryData,
    F: QueryData,
    G: QueryData,
    H: QueryData,
    I: QueryData,
    J: QueryData,
    K: QueryData,
    L: QueryData,
    M: QueryData,
    O: QueryData,
> QueryData for (A, B, C, D, E, F, G, H, I, J, K, L, M, O) {
    open spec fn filter() -> FilterExpr {
        FilterExpr::And(seq![
            A::filter(),
            B::filter(),
            C::filter(),
            D::filter(),
            E::filter(),
            F::filter(),
            G::filter(),
            H::filter(),
            I::filter(),
            J::filter(),
            K::filter(),
            L::filter(),
            M::filter(),
            O::filter(),
        ])
    }

    fn filter_expression() -> (expr: FilterExpression) {
        let mut members: Vec<FilterExpression> = Vec::new();
        members.push(<A as QueryData>::filter_expression());
        members.push(<B as QueryData>::filter_expression());
        members.push(<C as QueryData>::filter_expression());
        members.push(<D as QueryData>::filter_expression());
        members.push(<E as QueryData>::filter_expression());
        members.push(<F as QueryData>::filter_expression());
        members.push(<G as QueryData>::filter_expression());
        members.push(<H as QueryData>::filter_expression());
        members.push(<I as QueryData>::filter_expression());
        members.push(<J as QueryData>::filter_expression());
        members.push(<K as QueryData>::filter_expression());
        members.push(<L as QueryData>::filter_expression());
        members.push(<M as QueryData>::filter_expression());
        members.push(<O as QueryData>::filter_expression());
        let expr = FilterExpression::and(members);
        assert(expr@->And_0 =~= seq![
            A::filter(),
            B::filter(),
            C::filter(),
            D::filter(),
            E::filter(),
            F::filter(),
            G::filter(),
            H::filter(),
            I::filter(),
            J::filter(),
            K::filter(),
            L::filter(),
            M::filter(),
            O::filter(),
        ]) by {
            lemma_member_views(members@);
        }
        expr
    }
}

impl<
    A: QueryFilterValue,
    B: QueryFilterValue,
    C: QueryFilterValue,
    D: QueryFilterValue,
    E: QueryFilterValue,
    F: QueryFilterValue,
    G: QueryFilterValue,
    H: QueryFilterValue,
    I: QueryFilterValue,
    J: QueryFilterValue,
    K: QueryFilterValue,
    L: QueryFilterValue,
    M: QueryFilterValue,
    O: QueryFilterValue,
> QueryFilterValue for (A, B, C, D, E, F, G, H, I, J, K, L, M, O) {
    open spec fn filterable(&self) -> bool {
        &&& self.0.filterable()
        &&& self.1.filterable()
        &&& self.2.filterable()
        &&& self.3.filterable()
        &&& self.4.filterable()
        &&& self.5.filterable()
        &&& self.6.filterable()
        &&& self.7.filterable()
        &&& self.8.filterable()
        &&& self.9.filterable()
        &&& self.10.filterable()
        &&& self.11.filterable()
        &&& self.12.filterable()
        &&& self.13.filterable()
    }

    open spec fn filter(&self) -> FilterExpr {
        FilterExpr::And(seq![
            self.0.filter(),
            self.1.filter(),
            self.2.filter(),
            self.3.filter(),
            self.4.filter(),
            self.5.filter(),
            self.6.filter(),
            self.7.filter(),
            self.8.filter(),
            self.9.filter(),
            self.10.filter(),
            self.11.filter(),
            self.12.filter(),
            self.13.filter(),
        ])
    }

    fn is_filterable(&self) -> (filterable: bool) {
        self.0.is_filterable()
            && self.1.is_filterable()
            && self.2.is_filterable()
            && self.3.is_filterable()
            && self.4.is_filterable()
            && self.5.is_filterable()
            && self.6.is_filterable()
            && self.7.is_filterable()
            && self.8.is_filterable()
            && self.9.is_filterable()
            && self.10.is_filterable()
            && self.11.is_filterable()
            && self.12.is_filterable()
            && self.13.is_filterable()
    }

    fn filter_expression(&self) -> (expr: FilterExpression) {
        let mut members: Vec<FilterExpression> = Vec::new();
        members.push(self.0.filter_expression());
        members.push(self.1.filter_expression());
        members.push(self.2.filter_expression());
        members.push(self.3.filter_expression());
        members.push(self.4.filter_expression());
        members.push(self.5.filter_expression());
        members.push(self.6.filter_expression());
        members.push(self.7.filter_expression());
        members.push(self.8.filter_expression());
        members.push(self.9.filter_expression());
        members.push(self.10.filter_expression());
        members.push(self.11.filter_expression());
        members.push(self.12.filter_expression());
        members.push(self.13.filter_expression());
        let expr = FilterExpression::and(members);
        assert(expr@->And_0 =~= seq![
            self.0.filter(),
            self.1.filter(),
            self.2.filter(),
            self.3.filter(),
            self.4.filter(),
            self.5.filter(),
            self.6.filter(),
            self.7.filter(),
            self.8.filter(),
            self.9.filter(),
            self.10.filter(),
            self.11.filter(),
            self.12.filter(),
            self.13.filter(),
        ]) by {
            lemma_member_views(members@);
        }
        expr
    }
}

impl<
    A: QueryFilter,
    B: QueryFilter,
    C: QueryFilter,
    D: QueryFilter,
    E: QueryFilter,
    F: QueryFilter,
    G: QueryFilter,
    H: QueryFilter,
    I: QueryFilter,
    J: QueryFilter,
    K: QueryFilter,
    L: QueryFilter,
    M: QueryFilter,
    O: QueryFilter,
> QueryFilter for (A, B, C, D, E, F, G, H, I, J, K, L, M, O) {
    open spec fn filter() -> FilterExpr {
        FilterExpr::And(seq![
            A::filter(),
            B::filter(),
            C::filter(),
            D::filter(),
            E::filter(),
            F::filter(),
            G::filter(),
            H::filter(),
            I::filter(),
            J::filter(),
            K::filter(),
            L::filter(),
            M::filter(),
            O::filter(),
        ])
    }

    fn filter_expression() -> (expr: FilterExpression) {
        let mut members: Vec<FilterExpression> = Vec::new();
        members.push(<A as QueryFilter>::filter_expression());
        members.push(<B as QueryFilter>::filter_expression());
        members.push(<C as QueryFilter>::filter_expression());
        members.push(<D as QueryFilter>::filter_expression());
        members.push(<E as QueryFilter>::filter_expression());
        members.push(<F as QueryFilter>::filter_expression());
        members.push(<G as QueryFilter>::filter_expression());
        members.push(<H as QueryFilter>::filter_expression());
        members.push(<I as QueryFilter>::filter_expression());
        members.push(<J as QueryFilter>::filter_expression());
        members.push(<K as QueryFilter>::filter_expression());
        members.push(<L as QueryFilter>::filter_expression());
        members.push(<M as QueryFilter>::filter_expression());
        members.push(<O as QueryFilter>::filter_expression());
        let expr = FilterExpression::and(members);
        assert(expr@->And_0 =~= seq![
            A::filter(),
            B::filter(),
            C::filter(),
            D::filter(),
            E::filter(),
            F::filter(),
            G::filter(),
            H::filter(),
            I::filter(),
            J::filter(),
            K::filter(),
            L::filter(),
            M::filter(),
            O::filter(),
        ]) by {
            lemma_member_views(members@);
        }
        expr
    }
}

impl<
    A: QueryFilter,
    B: QueryFilter,
    C: QueryFilter,
    D: QueryFilter,
    E: QueryFilter,
    F: QueryFilter,
    G: QueryFilter,
    H: QueryFilter,
    I: QueryFilter,
    J: QueryFilter,
    K: QueryFilter,
    L: QueryFilter,
    M: QueryFilter,
    O: QueryFilter,
> QueryFilter for Or<(A, B, C, D, E, F, G, H, I, J, K, L, M, O)> {
    open spec fn filter() -> FilterExpr {
        FilterExpr::Or(seq![
            A::filter(),
            B::filter(),
            C::filter(),
            D::filter(),
            E::filter(),
            F::filter(),
            G::filter(),
            H::filter(),
            I::filter(),
            J::filter(),
            K::filter(),
            L::filter(),
            M::filter(),
            O::filter(),
        ])
    }

    fn filter_expression() -> (expr: FilterExpression) {
        let mut members: Vec<FilterExpression> = Vec::new();
        members.push(<A as QueryFilter>::filter_expression());
        members.push(<B as QueryFilter>::filter_expression());
        members.push(<C as QueryFilter>::filter_expression());
        members.push(<D as QueryFilter>::filter_expression());
        members.push(<E as QueryFilter>::filter_expression());
        members.push(<F as QueryFilter>::filter_expression());
        members.push(<G as QueryFilter>::filter_expression());
        members.push(<H as QueryFilter>::filter_expression());
        members.push(<I as QueryFilter>::filter_expression());
        members.push(<J as QueryFilter>::filter_expression());
        members.push(<K as QueryFilter>::filter_expression());
        members.push(<L as QueryFilter>::filter_expression());
        members.push(<M as QueryFilter>::filter_expression());
        members.push(<O as QueryFilter>::filter_expression());
        let expr = FilterExpression::or(members);
        assert(expr@->Or_0 =~= seq![
            A::filter(),
            B::filter(),
            C::filter(),
            D::filter(),
            E::filter(),
            F::filter(),
            G::filter(),
            H::filter(),
            I::filter(),
            J::filter(),
            K::filter(),
            L::filter(),
            M::filter(),
            O::filter(),
        ]) by {
            lemma_member_views(members@);
        }
        expr
    }
}

impl<
    A: Component,
    B: Component,
    C: Component,
    D: Component,
    E: Component,
    F: Component,
    G: Component,
    H: Component,
    I: Component,
    J: Component,
    K: Component,
    L: Component,
    M: Component,
    O: Component,
> QueryFilter for With<(A, B, C, D, E, F, G, H, I, J, K, L, M, O)> {
    open spec fn filter() -> FilterExpr {
        FilterExpr::And(seq![
            FilterExpr::WithComponent(A::NAME@),
            FilterExpr::WithComponent(B::NAME@),
            FilterExpr::WithComponent(C::NAME@),
            FilterExpr::WithComponent(D::NAME@),
            FilterExpr::WithComponent(E::NAME@),
            FilterExpr::WithComponent(F::NAME@),
            FilterExpr::WithComponent(G::NAME@),
            FilterExpr::WithComponent(H::NAME@),
            FilterExpr::WithComponent(I::NAME@),
            FilterExpr::WithComponent(J::NAME@),
            FilterExpr::WithComponent(K::NAME@),
            FilterExpr::WithComponent(L::NAME@),
            FilterExpr::WithComponent(M::NAME@),
            FilterExpr::WithComponent(O::NAME@),
        ])
    }

    fn filter_expression() -> (expr: FilterExpression) {
        let mut members: Vec<FilterExpression> = Vec::new();
        members.push(FilterExpression::with_component(A::component_name()));
        members.push(FilterExpression::with_component(B::component_name()));
        members.push(FilterExpression::with_component(C::component_name()));
        members.push(FilterExpression::with_component(D::component_name()));
        members.push(FilterExpression::with_component(E::component_name()));
        members.push(FilterExpression::with_component(F::component_name()));
        members.push(FilterExpression::with_component(G::component_name()));
        members.push(FilterExpression::with_component(H::component_name()));
        members.push(FilterExpression::with_component(I::component_name()));
        members.push(FilterExpression::with_component(J::component_name()));
        members.push(FilterExpression::with_component(K::component_name()));
        members.push(FilterExpression::with_component(L::component_name()));
        members.push(FilterExpression::with_component(M::component_name()));
        members.push(FilterExpression::with_component(O::component_name()));
        let expr = FilterExpression::and(members);
        assert(expr@->And_0 =~= seq![
            FilterExpr::WithComponent(A::NAME@),
            FilterExpr::WithComponent(B::NAME@),
            FilterExpr::WithComponent(C::NAME@),
            FilterExpr::WithComponent(D::NAME@),
            FilterExpr::WithComponent(E::NAME@),
            FilterExpr::WithComponent(F::NAME@),
            FilterExpr::WithComponent(G::NAME@),
            FilterExpr::WithComponent(H::NAME@),
            FilterExpr::WithComponent(I::NAME@),
            FilterExpr::WithComponent(J::NAME@),
            FilterExpr::WithComponent(K::NAME@),
            FilterExpr::WithComponent(L::NAME@),
            FilterExpr::WithComponent(M::NAME@),
            FilterExpr::WithComponent(O::NAME@),
        ]) by {
            lemma_member_views(members@);
        }
        expr
    }
}

impl<
    A: Component,
    B: Component,
    C: Component,
    D: Component,
    E: Component,
    F: Component,
    G: Component,
    H: Component,
    I: Component,
    J: Component,
    K: Component,
    L: Component,
    M: Component,
    O: Component,
> QueryFilter for Without<(A, B, C, D, E, F, G, H, I, J, K, L, M, O)> {
    open spec fn filter() -> FilterExpr {
        FilterExpr::And(seq![
            FilterExpr::WithoutComponent(A::NAME@),
            FilterExpr::WithoutComponent(B::NAME@),
            FilterExpr::WithoutComponent(C::NAME@),
            FilterExpr::WithoutComponent(D::NAME@),
            FilterExpr::WithoutComponent(E::NAME@),
            FilterExpr::WithoutComponent(F::NAME@),
            FilterExpr::WithoutComponent(G::NAME@),
            FilterExpr::WithoutComponent(H::NAME@),
            FilterExpr::WithoutComponent(I::NAME@),
            FilterExpr::WithoutComponent(J::NAME@),
            FilterExpr::WithoutComponent(K::NAME@),
            FilterExpr::WithoutComponent(L::NAME@),
            FilterExpr::WithoutComponent(M::NAME@),
            FilterExpr::WithoutComponent(O::NAME@),
        ])
    }

    fn filter_expression() -> (expr: FilterExpression) {
        let mut members: Vec<FilterExpression> = Vec::new();
        members.push(FilterExpression::without_component(A::component_name()));
        members.push(FilterExpression::without_component(B::component_name()));
        members.push(FilterExpression::without_component(C::component_name()));
        members.push(FilterExpression::without_component(D::component_name()));
        members.push(FilterExpression::without_component(E::component_name()));
        members.push(FilterExpression::without_component(F::component_name()));
        members.push(FilterExpression::without_component(G::component_name()));
        members.push(FilterExpression::without_component(H::component_name()));
        members.push(FilterExpression::without_component(I::component_name()));
        members.push(FilterExpression::without_component(J::component_name()));
        members.push(FilterExpression::without_component(K::component_name()));
        members.push(FilterExpression::without_component(L::component_name()));
        members.push(FilterExpression::without_component(M::component_name()));
        members.push(FilterExpression::without_component(O::component_name()));
        let expr = FilterExpression::and(members);
        assert(expr@->And_0 =~= seq![
            FilterExpr::WithoutComponent(A::NAME@),
            FilterExpr::WithoutComponent(B::NAME@),
            FilterExpr::WithoutComponent(C::NAME@),
            FilterExpr::WithoutComponent(D::NAME@),
            FilterExpr::WithoutComponent(E::NAME@),
            FilterExpr::WithoutComponent(F::NAME@),
            FilterExpr::WithoutComponent(G::NAME@),
            FilterExpr::WithoutComponent(H::NAME@),
            FilterExpr::WithoutComponent(I::NAME@),
            FilterExpr::WithoutComponent(J::NAME@),
            FilterExpr::WithoutComponent(K::NAME@),
            FilterExpr::WithoutComponent(L::NAME@),
            FilterExpr::WithoutComponent(M::NAME@),
            FilterExpr::WithoutComponent(O::NAME@),
        ]) by {
            lemma_member_views(members@);
        }
        expr
    }
}

impl<
    A: QueryData,
    B: QueryData,
    C: QueryData,
    D: QueryData,
    E: QueryData,
    F: QueryData,
    G: QueryData,
    H: QueryData,
    I: QueryData,
    J: QueryData,
    K: QueryData,
    L: QueryData,
    M: QueryData,
    O: QueryData,
    P: QueryData,
> QueryData for (A, B, C, D, E, F, G, H, I, J, K, L, M, O, P) {
    open spec fn filter() -> FilterExpr {
        FilterExpr::And(seq![
            A::filter(),
            B::filter(),
            C::filter(),
            D::filter(),
            E::filter(),
            F::filter(),
            G::filter(),
            H::filter(),
            I::filter(),
            J::filter(),
            K::filter(),
            L::filter(),
            M::filter(),
            O::filter(),
            P::filter(),
        ])
    }

    fn filter_expression() -> (expr: FilterExpression) {
        let mut members: Vec<FilterExpression> = Vec::new();
        members.push(<A as QueryData>::filter_expression());
        members.push(<B as QueryData>::filter_expression());
        members.push(<C as QueryData>::filter_expression());
        members.push(<D as QueryData>::filter_expression());
        members.push(<E as QueryData>::filter_expression());
        members.push(<F as QueryData>::filter_expression());
        members.push(<G as QueryData>::filter_expression());
        members.push(<H as QueryData>::filter_expression());
        members.push(<I as QueryData>::filter_expression());
        members.push(<J as QueryData>::filter_expression());
        members.push(<K as QueryData>::filter_expression());
        members.push(<L as QueryData>::filter_expression());
        members.push(<M as QueryData>::filter_expression());
        members.push(<O as QueryData>::filter_expression());
        members.push(<P as QueryData>::filter_expression());
        let expr = FilterExpression::and(members);
        assert(expr@->And_0 =~= seq![
            A::filter(),
            B::filter(),
            C::filter(),
            D::filter(),
            E::filter(),
            F::filter(),
            G::filter(),
            H::filter(),
            I::filter(),
            J::filter(),
            K::filter(),
            L::filter(),
            M::filter(),
            O::filter(),
            P::filter(),
        ]) by {
            lemma_member_views(members@);
        }
        expr
    }
}

impl<
    A: QueryFilterValue,
    B: QueryFilterValue,
    C: QueryFilterValue,
    D: QueryFilterValue,
    E: QueryFilterValue,
    F: QueryFilterValue,
    G: QueryFilterValue,
    H: QueryFilterValue,
    I: QueryFilterValue,
    J: QueryFilterValue,
    K: QueryFilterValue,
    L: QueryFilterValue,
    M: QueryFilterValue,
    O: QueryFilterValue,
    P: QueryFilterValue,
> QueryFilterValue for (A, B, C, D, E, F, G, H, I, J, K, L, M, O, P) {
    open spec fn filterable(&self) -> bool {
        &&& self.0.filterable()
        &&& self.1.filterable()
        &&& self.2.filterable()
        &&& self.3.filterable()
        &&& self.4.filterable()
        &&& self.5.filterable()
        &&& self.6.filterable()
        &&& self.7.filterable()
        &&& self.8.filterable()
        &&& self.9.filterable()
        &&& self.10.filterable()
        &&& self.11.filterable()
        &&& self.12.filterable()
        &&& self.13.filterable()
        &&& self.14.filterable()
    }

    open spec fn filter(&self) -> FilterExpr {
        FilterExpr::And(seq![
            self.0.filter(),
            self.1.filter(),
            self.2.filter(),
            self.3.filter(),
            self.4.filter(),
            self.5.filter(),
            self.6.filter(),
            self.7.filter(),
            self.8.filter(),
            self.9.filter(),
            self.10.filter(),
            self.11.filter(),
            self.12.filter(),
            self.13.filter(),
            self.14.filter(),
        ])
    }

    fn is_filterable(&self) -> (filterable: bool) {
        self.0.is_filterable()
            && self.1.is_filterable()
            && self.2.is_filterable()
            && self.3.is_filterable()
            && self.4.is_filterable()
            && self.5.is_filterable()
            && self.6.is_filterable()
            && self.7.is_filterable()
            && self.8.is_filterable()
            && self.9.is_filterable()
            && self.10.is_filterable()
            && self.11.is_filterable()
            && self.12.is_filterable()
            && self.13.is_filterable()
            && self.14.is_filterable()
    }

    fn filter_expression(&self) -> (expr: FilterExpression) {
        let mut members: Vec<FilterExpression> = Vec::new();
        members.push(self.0.filter_expression());
        members.push(self.1.filter_expression());
        members.push(self.2.filter_expression());
        members.push(self.3.filter_expression());
        members.push(self.4.filter_expression());
        members.push(self.5.filter_expression());
        members.push(self.6.filter_expression());
        members.push(self.7.filter_expression());
        members.push(self.8.filter_expression());
        members.push(self.9.filter_expression());
        members.push(self.10.filter_expression());
        members.push(self.11.filter_expression());
        members.push(self.12.filter_expression());
        members.push(self.13.filter_expression());
        members.push(self.14.filter_expression());
        let expr = FilterExpression::and(members);
        assert(expr@->And_0 =~= seq![
            self.0.filter(),
            self.1.filter(),
            self.2.filter(),
            self.3.filter(),
            self.4.filter(),
            self.5.filter(),
            self.6.filter(),
            self.7.filter(),
            self.8.filter(),
            self.9.filter(),
            self.10.filter(),
            self.11.filter(),
            self.12.filter(),
            self.13.filter(),
            self.14.filter(),
        ]) by {
            lemma_member_views(members@);
        }
        expr
    }
}

impl<
    A: QueryFilter,
    B: QueryFilter,
    C: QueryFilter,
    D: QueryFilter,
    E: QueryFilter,
    F: QueryFilter,
    G: QueryFilter,
    H: QueryFilter,
    I: QueryFilter,
    J: QueryFilter,
    K: QueryFilter,
    L: QueryFilter,
    M: QueryFilter,
    O: QueryFilter,
    P: QueryFilter,
> QueryFilter for (A, B, C, D, E, F, G, H, I, J, K, L, M, O, P) {
    open spec fn filter() -> FilterExpr {
        FilterExpr::And(seq![
            A::filter(),
            B::filter(),
            C::filter(),
            D::filter(),
            E::filter(),
            F::filter(),
            G::filter(),
            H::filter(),
            I::filter(),
            J::filter(),
            K::filter(),
            L::filter(),
            M::filter(),
            O::filter(),
            P::filter(),
        ])
    }

    fn filter_expression() -> (expr: FilterExpression) {
        let mut members: Vec<FilterExpression> = Vec::new();
        members.push(<A as QueryFilter>::filter_expression());
        members.push(<B as QueryFilter>::filter_expression());
        members.push(<C as QueryFilter>::filter_expression());
        members.push(<D as QueryFilter>::filter_expression());
        members.push(<E as QueryFilter>::filter_expression());
        members.push(<F as QueryFilter>::filter_expression());
        members.push(<G as QueryFilter>::filter_expression());
        members.push(<H as QueryFilter>::filter_expression());
        members.push(<I as QueryFilter>::filter_expression());
        members.push(<J as QueryFilter>::filter_expression());
        members.push(<K as QueryFilter>::filter_expression());
        members.push(<L as QueryFilter>::filter_expression());
        members.push(<M as QueryFilter>::filter_expression());
        members.push(<O as QueryFilter>::filter_expression());
        members.push(<P as QueryFilter>::filter_expression());
        let expr = FilterExpression::and(members);
        assert(expr@->And_0 =~= seq![
            A::filter(),
            B::filter(),
            C::filter(),
            D::filter(),
            E::filter(),
            F::filter(),
            G::filter(),
            H::filter(),
            I::filter(),
            J::filter(),
            K::filter(),
            L::filter(),
            M::filter(),
            O::filter(),
            P::filter(),
        ]) by {
            lemma_member_views(members@);
        }
        expr
    }
}

impl<
    A: QueryFilter,
    B: QueryFilter,
    C: QueryFilter,
    D: QueryFilter,
    E: QueryFilter,
    F: QueryFilter,
    G: QueryFilter,
    H: QueryFilter,
    I: QueryFilter,
    J: QueryFilter,
    K: QueryFilter,
    L: QueryFilter,
    M: QueryFilter,
    O: QueryFilter,
    P: QueryFilter,
> QueryFilter for Or<(A, B, C, D, E, F, G, H, I, J, K, L, M, O, P)> {
    open spec fn filter() -> FilterExpr {
        FilterExpr::Or(seq![
            A::filter(),
            B::filter(),
            C::filter(),
            D::filter(),
            E::filter(),
            F::filter(),
            G::filter(),
            H::filter(),
            I::filter(),
            J::filter(),
            K::filter(),
            L::filter(),
            M::filter(),
            O::filter(),
            P::filter(),
        ])
    }

    fn filter_expression() -> (expr: FilterExpression) {
        let mut members: Vec<FilterExpression> = Vec::new();
        members.push(<A as QueryFilter>::filter_expression());
        members.push(<B as QueryFilter>::filter_expression());
        members.push(<C as QueryFilter>::filter_expression());
        members.push(<D as QueryFilter>::filter_expression());
        members.push(<E as QueryFilter>::filter_expression());
        members.push(<F as QueryFilter>::filter_expression());
        members.push(<G as QueryFilter>::filter_expression());
        members.push(<H as QueryFilter>::filter_expression());
        members.push(<I as QueryFilter>::filter_expression());
        members.push(<J as QueryFilter>::filter_expression());
        members.push(<K as QueryFilter>::filter_expression());
        members.push(<L as QueryFilter>::filter_expression());
        members.push(<M as QueryFilter>::filter_expression());
        members.push(<O as QueryFilter>::filter_expression());
        members.push(<P as QueryFilter>::filter_expression());
        let expr = FilterExpression::or(members);
        assert(expr@->Or_0 =~= seq![
            A::filter(),
            B::filter(),
            C::filter(),
            D::filter(),
            E::filter(),
            F::filter(),
            G::filter(),
            H::filter(),
            I::filter(),
            J::filter(),
            K::filter(),
            L::filter(),
            M::filter(),
            O::filter(),
            P::filter(),
        ]) by {
            lemma_member_views(members@);
        }
        expr
    }
}

impl<
    A: Component,
    B: Component,
    C: Component,
    D: Component,
    E: Component,
    F: Component,
    G: Component,
    H: Component,
    I: Component,
    J: Component,
    K: Component,
    L: Component,
    M: Component,
    O: Component,
    P: Component,
> QueryFilter for With<(A, B, C, D, E, F, G, H, I, J, K, L, M, O, P)> {
    open spec fn filter() -> FilterExpr {
        FilterExpr::And(seq![
            FilterExpr::WithComponent(A::NAME@),
            FilterExpr::WithComponent(B::NAME@),
            FilterExpr::WithComponent(C::NAME@),
            FilterExpr::WithComponent(D::NAME@),
            FilterExpr::WithComponent(E::NAME@),
            FilterExpr::WithComponent(F::NAME@),
            FilterExpr::WithComponent(G::NAME@),
            FilterExpr::WithComponent(H::NAME@),
            FilterExpr::WithComponent(I::NAME@),
            FilterExpr::WithComponent(J::NAME@),
            FilterExpr::WithComponent(K::NAME@),
            FilterExpr::WithComponent(L::NAME@),
            FilterExpr::WithComponent(M::NAME@),
            FilterExpr::WithComponent(O::NAME@),
            FilterExpr::WithComponent(P::NAME@),
        ])
    }

    fn filter_expression() -> (expr: FilterExpression) {
        let mut members: Vec<FilterExpression> = Vec::new();
        members.push(FilterExpression::with_component(A::component_name()));
        members.push(FilterExpression::with_component(B::component_name()));
        members.push(FilterExpression::with_component(C::component_name()));
        members.push(FilterExpression::with_component(D::component_name()));
        members.push(FilterExpression::with_component(E::component_name()));
        members.push(FilterExpression::with_component(F::component_name()));
        members.push(FilterExpression::with_component(G::component_name()));
        members.push(FilterExpression::with_component(H::component_name()));
        members.push(FilterExpression::with_component(I::component_name()));
        members.push(FilterExpression::with_component(J::component_name()));
        members.push(FilterExpression::with_component(K::component_name()));
        members.push(FilterExpression::with_component(L::component_name()));
        members.push(FilterExpression::with_component(M::component_name()));
        members.push(FilterExpression::with_component(O::component_name()));
        members.push(FilterExpression::with_component(P::component_name()));
        let expr = FilterExpression::and(members);
        assert(expr@->And_0 =~= seq![
            FilterExpr::WithComponent(A::NAME@),
            FilterExpr::WithComponent(B::NAME@),
            FilterExpr::WithComponent(C::NAME@),
            FilterExpr::WithComponent(D::NAME@),
            FilterExpr::WithComponent(E::NAME@),
            FilterExpr::WithComponent(F::NAME@),
            FilterExpr::WithComponent(G::NAME@),
            FilterExpr::WithComponent(H::NAME@),
            FilterExpr::WithComponent(I::NAME@),
            FilterExpr::WithComponent(J::NAME@),
            FilterExpr::WithComponent(K::NAME@),
            FilterExpr::WithComponent(L::NAME@),
            FilterExpr::WithComponent(M::NAME@),
            FilterExpr::WithComponent(O::NAME@),
            FilterExpr::WithComponent(P::NAME@),
        ]) by {
            lemma_member_views(members@);
        }
        expr
    }
}

impl<
    A: Component,
    B: Component,
    C: Component,
    D: Component,
    E: Component,
    F: Component,
    G: Component,
    H: Component,
    I: Component,
    J: Component,
    K: Component,
    L: Component,
    M: Component,
    O: Component,
    P: Component,
> QueryFilter for Without<(A, B, C, D, E, F, G, H, I, J, K, L, M, O, P)> {
    open spec fn filter() -> FilterExpr {
        FilterExpr::And(seq![
            FilterExpr::WithoutComponent(A::NAME@),
            FilterExpr::WithoutComponent(B::NAME@),
            FilterExpr::WithoutComponent(C::NAME@),
            FilterExpr::WithoutComponent(D::NAME@),
            FilterExpr::WithoutComponent(E::NAME@),
            FilterExpr::WithoutComponent(F::NAME@),
            FilterExpr::WithoutComponent(G::NAME@),
            FilterExpr::WithoutComponent(H::NAME@),
            FilterExpr::WithoutComponent(I::NAME@),
            FilterExpr::WithoutComponent(J::NAME@),
            FilterExpr::WithoutComponent(K::NAME@),
            FilterExpr::WithoutComponent(L::NAME@),
            FilterExpr::WithoutComponent(M::NAME@),
            FilterExpr::WithoutComponent(O::NAME@),
            FilterExpr::WithoutComponent(P::NAME@),
        ])
    }

    fn filter_expression() -> (expr: FilterExpression) {
        let mut members: Vec<FilterExpression> = Vec::new();
        members.push(FilterExpression::without_component(A::component_name()));
        members.push(FilterExpression::without_component(B::component_name()));
        members.push(FilterExpression::without_component(C::component_name()));
        members.push(FilterExpression::without_component(D::component_name()));
        members.push(FilterExpression::without_component(E::component_name()));
        members.push(FilterExpression::without_component(F::component_name()));
        members.push(FilterExpression::without_component(G::component_name()));
        members.push(FilterExpression::without_component(H::component_name()));
        members.push(FilterExpression::without_component(I::component_name()));
        members.push(FilterExpression::without_component(J::component_name()));
        members.push(FilterExpression::without_component(K::component_name()));
        members.push(FilterExpression::without_component(L::component_name()));
        members.push(FilterExpression::without_component(M::component_name()));
        members.push(FilterExpression::without_component(O::component_name()));
        members.push(FilterExpression::without_component(P::component_name()));
        let expr = FilterExpression::and(members);
        assert(expr@->And_0 =~= seq![
            FilterExpr::WithoutComponent(A::NAME@),
            FilterExpr::WithoutComponent(B::NAME@),
            FilterExpr::WithoutComponent(C::NAME@),
            FilterExpr::WithoutComponent(D::NAME@),
            FilterExpr::WithoutComponent(E::NAME@),
            FilterExpr::WithoutComponent(F::NAME@),
            FilterExpr::WithoutComponent(G::NAME@),
            FilterExpr::WithoutComponent(H::NAME@),
            FilterExpr::WithoutComponent(I::NAME@),
            FilterExpr::WithoutComponent(J::NAME@),
            FilterExpr::WithoutComponent(K::NAME@),
            FilterExpr::WithoutComponent(L::NAME@),
            FilterExpr::WithoutComponent(M::NAME@),
            FilterExpr::WithoutComponent(O::NAME@),
            FilterExpr::WithoutComponent(P::NAME@),
        ]) by {
            lemma_member_views(members@);
        }
        expr
    }
}

impl<
    A: QueryData,
    B: QueryData,
    C: QueryData,
    D: QueryData,
    E: QueryData,
    F: QueryData,
    G: QueryData,
    H: QueryData,
    I: QueryData,
    J: QueryData,
    K: QueryData,
    L: QueryData,
    M: QueryData,
    O: QueryData,
    P: QueryData,
    Q: QueryData,
> QueryData for (A, B, C, D, E, F, G, H, I, J, K, L, M, O, P, Q) {
    open spec fn filter() -> FilterExpr {
        FilterExpr::And(seq![
            A::filter(),
            B::filter(),
            C::filter(),
            D::filter(),
            E::filter(),
            F::filter(),
            G::filter(),
            H::filter(),
            I::filter(),
            J::filter(),
            K::filter(),
            L::filter(),
            M::filter(),
            O::filter(),
            P::filter(),
            Q::filter(),
        ])
    }

    fn filter_expression() -> (expr: FilterExpression) {
        let mut members: Vec<FilterExpression> = Vec::new();
        members.push(<A as QueryData>::filter_expression());
        members.push(<B as QueryData>::filter_expression());
        members.push(<C as QueryData>::filter_expression());
        members.push(<D as QueryData>::filter_expression());
        members.push(<E as QueryData>::filter_expression());
        members.push(<F as QueryData>::filter_expression());
        members.push(<G as QueryData>::filter_expression());
        members.push(<H as QueryData>::filter_expression());
        members.push(<I as QueryData>::filter_expression());
        members.push(<J as QueryData>::filter_expression());
        members.push(<K as QueryData>::filter_expression());
        members.push(<L as QueryData>::filter_expression());
        members.push(<M as QueryData>::filter_expression());
        members.push(<O as QueryData>::filter_expression());
        members.push(<P as QueryData>::filter_expression());
        members.push(<Q as QueryData>::filter_expression());
        let expr = FilterExpression::and(members);
        assert(expr@->And_0 =~= seq![
            A::filter(),
            B::filter(),
            C::filter(),
            D::filter(),
            E::filter(),
            F::filter(),
            G::filter(),
            H::filter(),
            I::filter(),
            J::filter(),
            K::filter(),
            L::filter(),
            M::filter(),
            O::filter(),
            P::filter(),
            Q::filter(),
        ]) by {
            lemma_member_views(members@);
        }
        expr
    }
}

impl<
    A: QueryFilterValue,
    B: QueryFilterValue,
    C: QueryFilterValue,
    D: QueryFilterValue,
    E: QueryFilterValue,
    F: QueryFilterValue,
    G: QueryFilterValue,
    H: QueryFilterValue,
    I: QueryFilterValue,
    J: QueryFilterValue,
    K: QueryFilterValue,
    L: QueryFilterValue,
    M: QueryFilterValue,
    O: QueryFilterValue,
    P: QueryFilterValue,
    Q: QueryFilterValue,
> QueryFilterValue for (A, B, C, D, E, F, G, H, I, J, K, L, M, O, P, Q) {
    open spec fn filterable(&self) -> bool {
        &&& self.0.filterable()
        &&& self.1.filterable()
        &&& self.2.filterable()
        &&& self.3.filterable()
        &&& self.4.filterable()
        &&& self.5.filterable()
        &&& self.6.filterable()
        &&& self.7.filterable()
        &&& self.8.filterable()
        &&& self.9.filterable()
        &&& self.10.filterable()
        &&& self.11.filterable()
        &&& self.12.filterable()
        &&& self.13.filterable()
        &&& self.14.filterable()
        &&& self.15.filterable()
    }

    open spec fn filter(&self) -> FilterExpr {
        FilterExpr::And(seq![
            self.0.filter(),
            self.1.filter(),
            self.2.filter(),
            self.3.filter(),
            self.4.filter(),
            self.5.filter(),
            self.6.filter(),
            self.7.filter(),
            self.8.filter(),
            self.9.filter(),
            self.10.filter(),
            self.11.filter(),
            self.12.filter(),
            self.13.filter(),
            self.14.filter(),
            self.15.filter(),
        ])
    }

    fn is_filterable(&self) -> (filterable: bool) {
        self.0.is_filterable()
            && self.1.is_filterable()
            && self.2.is_filterable()
            && self.3.is_filterable()
            && self.4.is_filterable()
            && self.5.is_filterable()
            && self.6.is_filterable()
            && self.7.is_filterable()
            && self.8.is_filterable()
            && self.9.is_filterable()
            && self.10.is_filterable()
            && self.11.is_filterable()
            && self.12.is_filterable()
            && self.13.is_filterable()
            && self.14.is_filterable()
            && self.15.is_filterable()
    }

    fn filter_expression(&self) -> (expr: FilterExpression) {
        let mut members: Vec<FilterExpression> = Vec::new();
        members.push(self.0.filter_expression());
        members.push(self.1.filter_expression());
        members.push(self.2.filter_expression());
        members.push(self.3.filter_expression());
        members.push(self.4.filter_expression());
        members.push(self.5.filter_expression());
        members.push(self.6.filter_expression());
        members.push(self.7.filter_expression());
        members.push(self.8.filter_expression());
        members.push(self.9.filter_expression());
        members.push(self.10.filter_expression());
        members.push(self.11.filter_expression());
        members.push(self.12.filter_expression());
        members.push(self.13.filter_expression());
        members.push(self.14.filter_expression());
        members.push(self.15.filter_expression());
        let expr = FilterExpression::and(members);
        assert(expr@->And_0 =~= seq![
            self.0.filter(),
            self.1.filter(),
            self.2.filter(),
            self.3.filter(),
            self.4.filter(),
            self.5.filter(),
            self.6.filter(),
            self.7.filter(),
            self.8.filter(),
            self.9.filter(),
            self.10.filter(),
            self.11.filter(),
            self.12.filter(),
            self.13.filter(),
            self.14.filter(),
            self.15.filter(),
        ]) by {
            lemma_member_views(members@);
        }
        expr
    }
}

impl<
    A: QueryFilter,
    B: QueryFilter,
    C: QueryFilter,
    D: QueryFilter,
    E: QueryFilter,
    F: QueryFilter,
    G: QueryFilter,
    H: QueryFilter,
    I: QueryFilter,
    J: QueryFilter,
    K: QueryFilter,
    L: QueryFilter,
    M: QueryFilter,
    O: QueryFilter,
    P: QueryFilter,
    Q: QueryFilter,
> QueryFilter for (A, B, C, D, E, F, G, H, I, J, K, L, M, O, P, Q) {
    open spec fn filter() -> FilterExpr {
        FilterExpr::And(seq![
            A::filter(),
            B::filter(),
            C::filter(),
            D::filter(),
            E::filter(),
            F::filter(),
            G::filter(),
            H::filter(),
            I::filter(),
            J::filter(),
            K::filter(),
            L::filter(),
            M::filter(),
            O::filter(),
            P::filter(),
            Q::filter(),
        ])
    }

    fn filter_expression() -> (expr: FilterExpression) {
        let mut members: Vec<FilterExpression> = Vec::new();
        members.push(<A as QueryFilter>::filter_expression());
        members.push(<B as QueryFilter>::filter_expression());
        members.push(<C as QueryFilter>::filter_expression());
        members.push(<D as QueryFilter>::filter_expression());
        members.push(<E as QueryFilter>::filter_expression());
        members.push(<F as QueryFilter>::filter_expression());
        members.push(<G as QueryFilter>::filter_expression());
        members.push(<H as QueryFilter>::filter_expression());
        members.push(<I as QueryFilter>::filter_expression());
        members.push(<J as QueryFilter>::filter_expression());
        members.push(<K as QueryFilter>::filter_expression());
        members.push(<L as QueryFilter>::filter_expression());
        members.push(<M as QueryFilter>::filter_expression());
        members.push(<O as QueryFilter>::filter_expression());
        members.push(<P as QueryFilter>::filter_expression());
        members.push(<Q as QueryFilter>::filter_expression());
        let expr = FilterExpression::and(members);
        assert(expr@->And_0 =~= seq![
            A::filter(),
            B::filter(),
            C::filter(),
            D::filter(),
            E::filter(),
            F::filter(),
            G::filter(),
            H::filter(),
            I::filter(),
            J::filter(),
            K::filter(),
            L::filter(),
            M::filter(),
            O::filter(),
            P::filter(),
            Q::filter(),
        ]) by {
            lemma_member_views(members@);
        }
        expr
    }
}

impl<
    A: QueryFilter,
    B: QueryFilter,
    C: QueryFilter,
    D: QueryFilter,
    E: QueryFilter,
    F: QueryFilter,
    G: QueryFilter,
    H: QueryFilter,
    I: QueryFilter,
    J: QueryFilter,
    K: QueryFilter,
    L: QueryFilter,
    M: QueryFilter,
    O: QueryFilter,
    P: QueryFilter,
    Q: QueryFilter,
> QueryFilter for Or<(A, B, C, D, E, F, G, H, I, J, K, L, M, O, P, Q)> {
    open spec fn filter() -> FilterExpr {
        FilterExpr::Or(seq![
            A::filter(),
            B::filter(),
            C::filter(),
            D::filter(),
            E::filter(),
            F::filter(),
            G::filter(),
            H::filter(),
            I::filter(),
            J::filter(),
            K::filter(),
            L::filter(),
            M::filter(),
            O::filter(),
            P::filter(),
            Q::filter(),
        ])
    }

    fn filter_expression() -> (expr: FilterExpression) {
        let mut members: Vec<FilterExpression> = Vec::new();
        members.push(<A as QueryFilter>::filter_expression());
        members.push(<B as QueryFilter>::filter_expression());
        members.push(<C as QueryFilter>::filter_expression());
        members.push(<D as QueryFilter>::filter_expression());
        members.push(<E as QueryFilter>::filter_expression());
        members.push(<F as QueryFilter>::filter_expression());
        members.push(<G as QueryFilter>::filter_expression());
        members.push(<H as QueryFilter>::filter_expression());
        members.push(<I as QueryFilter>::filter_expression());
        members.push(<J as QueryFilter>::filter_expression());
        members.push(<K as QueryFilter>::filter_expression());
        members.push(<L as QueryFilter>::filter_expression());
        members.push(<M as QueryFilter>::filter_expression());
        members.push(<O as QueryFilter>::filter_expression());
        members.push(<P as QueryFilter>::filter_expression());
        members.push(<Q as QueryFilter>::filter_expression());
        let expr = FilterExpression::or(members);
        assert(expr@->Or_0 =~= seq![
            A::filter(),
            B::filter(),
            C::filter(),
            D::filter(),
            E::filter(),
            F::filter(),
            G::filter(),
            H::filter(),
            I::filter(),
            J::filter(),
            K::filter(),
            L::filter(),
            M::filter(),
            O::filter(),
            P::filter(),
            Q::filter(),
        ]) by {
            lemma_member_views(members@);
        }
        expr
    }
}

impl<
    A: Component,
    B: Component,
    C: Component,
    D: Component,
    E: Component,
    F: Component,
    G: Component,
    H: Component,
    I: Component,
    J: Component,
    K: Component,
    L: Component,
    M: Component,
    O: Component,
    P: Component,
    Q: Component,
> QueryFilter for With<(A, B, C, D, E, F, G, H, I, J, K, L, M, O, P, Q)> {
    open spec fn filter() -> FilterExpr {
        FilterExpr::And(seq![
            FilterExpr::WithComponent(A::NAME@),
            FilterExpr::WithComponent(B::NAME@),
            FilterExpr::WithComponent(C::NAME@),
            FilterExpr::WithComponent(D::NAME@),
            FilterExpr::WithComponent(E::NAME@),
            FilterExpr::WithComponent(F::NAME@),
            FilterExpr::WithComponent(G::NAME@),
            FilterExpr::WithComponent(H::NAME@),
            FilterExpr::WithComponent(I::NAME@),
            FilterExpr::WithComponent(J::NAME@),
            FilterExpr::WithComponent(K::NAME@),
            FilterExpr::WithComponent(L::NAME@),
            FilterExpr::WithComponent(M::NAME@),
            FilterExpr::WithComponent(O::NAME@),
            FilterExpr::WithComponent(P::NAME@),
            FilterExpr::WithComponent(Q::NAME@),
        ])
    }

    fn filter_expression() -> (expr: FilterExpression) {
        let mut members: Vec<FilterExpression> = Vec::new();
        members.push(FilterExpression::with_component(A::component_name()));
        members.push(FilterExpression::with_component(B::component_name()));
        members.push(FilterExpression::with_component(C::component_name()));
        members.push(FilterExpression::with_component(D::component_name()));
        members.push(FilterExpression::with_component(E::component_name()));
        members.push(FilterExpression::with_component(F::component_name()));
        members.push(FilterExpression::with_component(G::component_name()));
        members.push(FilterExpression::with_component(H::component_name()));
        members.push(FilterExpression::with_component(I::component_name()));
        members.push(FilterExpression::with_component(J::component_name()));
        members.push(FilterExpression::with_component(K::component_name()));
        members.push(FilterExpression::with_component(L::component_name()));
        members.push(FilterExpression::with_component(M::component_name()));
        members.push(FilterExpression::with_component(O::component_name()));
        members.push(FilterExpression::with_component(P::component_name()));
        members.push(FilterExpression::with_component(Q::component_name()));
        let expr = FilterExpression::and(members);
        assert(expr@->And_0 =~= seq![
            FilterExpr::WithComponent(A::NAME@),
            FilterExpr::WithComponent(B::NAME@),
            FilterExpr::WithComponent(C::NAME@),
            FilterExpr::WithComponent(D::NAME@),
            FilterExpr::WithComponent(E::NAME@),
            FilterExpr::WithComponent(F::NAME@),
            FilterExpr::WithComponent(G::NAME@),
            FilterExpr::WithComponent(H::NAME@),
            FilterExpr::WithComponent(I::NAME@),
            FilterExpr::WithComponent(J::NAME@),
            FilterExpr::WithComponent(K::NAME@),
            FilterExpr::WithComponent(L::NAME@),
            FilterExpr::WithComponent(M::NAME@),
            FilterExpr::WithComponent(O::NAME@),
            FilterExpr::WithComponent(P::NAME@),
            FilterExpr::WithComponent(Q::NAME@),
        ]) by {
            lemma_member_views(members@);
        }
        expr
    }
}

impl<
    A: Component,
    B: Component,
    C: Component,
    D: Component,
    E: Component,
    F: Component,
    G: Component,
    H: Component,
    I: Component,
    J: Component,
    K: Component,
    L: Component,
    M: Component,
    O: Component,
    P: Component,
    Q: Component,
> QueryFilter for Without<(A, B, C, D, E, F, G, H, I, J, K, L, M, O, P, Q)> {
    open spec fn filter() -> FilterExpr {
        FilterExpr::And(seq![
            FilterExpr::WithoutComponent(A::NAME@),
            FilterExpr::WithoutComponent(B::NAME@),
            FilterExpr::WithoutComponent(C::NAME@),
            FilterExpr::WithoutComponent(D::NAME@),
            FilterExpr::WithoutComponent(E::NAME@),
            FilterExpr::WithoutComponent(F::NAME@),
            FilterExpr::WithoutComponent(G::NAME@),
            FilterExpr::WithoutComponent(H::NAME@),
            FilterExpr::WithoutComponent(I::NAME@),
            FilterExpr::WithoutComponent(J::NAME@),
            FilterExpr::WithoutComponent(K::NAME@),
            FilterExpr::WithoutComponent(L::NAME@),
            FilterExpr::WithoutComponent(M::NAME@),
            FilterExpr::WithoutComponent(O::NAME@),
            FilterExpr::WithoutComponent(P::NAME@),
            FilterExpr::WithoutComponent(Q::NAME@),
        ])
    }

    fn filter_expression() -> (expr: FilterExpression) {
        let mut members: Vec<FilterExpression> = Vec::new();
        members.push(FilterExpression::without_component(A::component_name()));
        members.push(FilterExpression::without_component(B::component_name()));
        members.push(FilterExpression::without_component(C::component_name()));
        members.push(FilterExpression::without_component(D::component_name()));
        members.push(FilterExpression::without_component(E::component_name()));
        members.push(FilterExpression::without_component(F::component_name()));
        members.push(FilterExpression::without_component(G::component_name()));
        members.push(FilterExpression::without_component(H::component_name()));
        members.push(FilterExpression::without_component(I::component_name()));
        members.push(FilterExpression::without_component(J::component_name()));
        members.push(FilterExpression::without_component(K::component_name()));
        members.push(FilterExpression::without_component(L::component_name()));
        members.push(FilterExpression::without_component(M::component_name()));
        members.push(FilterExpression::without_component(O::component_name()));
        members.push(FilterExpression::without_component(P::component_name()));
        members.push(FilterExpression::without_component(Q::component_name()));
        let expr = FilterExpression::and(members);
        assert(expr@->And_0 =~= seq![
            FilterExpr::WithoutComponent(A::NAME@),
            FilterExpr::WithoutComponent(B::NAME@),
            FilterExpr::WithoutComponent(C::NAME@),
            FilterExpr::WithoutComponent(D::NAME@),
            FilterExpr::WithoutComponent(E::NAME@),
            FilterExpr::WithoutComponent(F::NAME@),
            FilterExpr::WithoutComponent(G::NAME@),
            FilterExpr::WithoutComponent(H::NAME@),
            FilterExpr::WithoutComponent(I::NAME@),
            FilterExpr::WithoutComponent(J::NAME@),
            FilterExpr::WithoutComponent(K::NAME@),
            FilterExpr::WithoutComponent(L::NAME@),
            FilterExpr::WithoutComponent(M::NAME@),
            FilterExpr::WithoutComponent(O::NAME@),
            FilterExpr::WithoutComponent(P::NAME@),
            FilterExpr::WithoutComponent(Q::NAME@),
        ]) by {
            lemma_member_views(members@);
        }
        expr
    }
}

} // verus!
