//! The expression that stands where a table has none to offer.

use crate::expression::{Expression, SelectableExpression};
use vstd::prelude::*;

verus! {

/// An expression without SQL text and without SQL type. A table whose columns
/// are not known gives it as its default selection, its primary key and its
/// list of all columns. It is never part of a select list.
#[derive(Debug, Clone, Copy, PartialEq, Eq, Structural)]
pub struct DummyExpression;

impl DummyExpression {
    pub fn new() -> (expression: Self)
        ensures
            expression == DummyExpression,
    {
        DummyExpression
    }
}

impl Expression for DummyExpression {
    type SqlType = ();
}

impl<QS> SelectableExpression<QS> for DummyExpression {
}

} // verus!
