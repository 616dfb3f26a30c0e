//! Tables, columns and select lists whose names are only known at run time,
//! rendered as quoted SQL through diesel's query builders, and the row
//! containers that hold what such a query returns.

pub mod ast_pass;
pub mod column;
pub mod dummy_expression;
pub mod dynamic_select;
pub mod dynamic_value;
pub mod expression;
pub mod identifier;
pub mod query_builder;
pub mod schema;
pub mod table;

pub use column::Column;
pub use schema::Schema;
pub use table::Table;
use vstd::prelude::*;

verus! {

/// The table `name`, in no schema.
pub fn table<T>(name: T) -> (table: Table<T>)
    ensures
        *table.name() == name,
        table.spec_schema() is None,
{
    Table::new(name)
}

/// The schema `name`.
pub fn schema<T>(name: T) -> (schema: Schema<T>)
    ensures
        *schema.name() == name,
{
    Schema::new(name)
}

} // verus!
