//! What a value must be to stand in a select list.

use vstd::prelude::*;

verus! {

/// A value with an SQL type.
pub trait Expression {
    /// The SQL type of the value.
    type SqlType;
}

/// An expression that may stand in the select list of a query on `QS`.
pub trait SelectableExpression<QS>: Expression {
}

} // verus!
