//! A schema, by name.

use crate::identifier::Identifier;
use crate::table::{Table, TableView};
use vstd::prelude::*;

verus! {

/// A schema named at run time. `schema` makes one; nothing changes it
/// afterwards.
#[derive(Debug)]
pub struct Schema<T> {
    name: T,
}

impl<T> Schema<T> {
    /// The schema's name.
    pub closed spec fn spec_name(&self) -> &T {
        &self.name
    }

    /// The schema `name`.
    pub fn new(name: T) -> (schema: Self)
        ensures
            *schema.spec_name() == name,
    {
        Schema { name }
    }

    /// The schema's name, as it was given.
    #[verifier::when_used_as_spec(spec_name)]
    pub fn name(&self) -> (name: &T)
        ensures
            name == self.spec_name(),
    {
        &self.name
    }

    /// The table `name` in this schema. The table holds a clone of the
    /// schema's name.
    pub fn table<U>(&self, name: U) -> (table: Table<U, T>) where T: Clone
        ensures
            *table.name() == name,
            table.spec_schema() matches Some(schema) && cloned(*self.name(), schema),
    {
        Table::with_schema(self.name.clone(), name)
    }
}

impl<T: Clone> Clone for Schema<T> {
    fn clone(&self) -> (copy: Self)
        ensures
            cloned(*self.name(), *copy.name()),
    {
        Schema { name: self.name.clone() }
    }
}

impl<T: Copy> Copy for Schema<T> {
}

/// A table made by a schema has the name it was given and the schema's name.
pub proof fn lemma_table_in_schema<T: Identifier, U: Identifier>(
    schema: &Schema<T>,
    name: U,
    table: &Table<U, T>,
)
    requires
        *table.name() == name,
        table.spec_schema() matches Some(of_table) && cloned(*schema.name(), of_table),
    ensures
        table@ == (TableView { name: name.text(), schema: Some(schema.name().text()) }),
{
    schema.name().lemma_clone_keeps_text(&table.spec_schema().unwrap());
}

} // verus!
