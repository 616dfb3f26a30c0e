//! Rows whose width and column types are only known when they are decoded.

use std::ops::Index;
use vstd::prelude::*;

verus! {

/// The SQL type of a value whose type is only known when it is decoded. It
/// stands for every type of every backend and names none.
#[derive(Debug, Clone, Copy, PartialEq, Eq, Structural)]
pub struct Any;

impl Default for Any {
    fn default() -> (any: Self)
        ensures
            any == Any,
    {
        Any
    }
}

/// One column of a row as the backend reports it.
#[derive(Debug)]
pub struct RawColumn<R> {
    /// The column's name, where the backend knows one.
    pub name: Option<String>,
    /// The column's raw value; `None` stands for SQL `NULL`.
    pub value: Option<R>,
}

/// A decoded value with the name of the column that it came from.
#[derive(Debug, PartialEq)]
pub struct NamedField<I> {
    /// The name of the column, as the backend reports it.
    pub name: String,
    /// The decoded value of the column.
    pub value: I,
}

impl<I: Clone> Clone for NamedField<I> {
    fn clone(&self) -> (copy: Self)
        ensures
            copy.name@ == self.name@,
            cloned(self.value, copy.value),
    {
        NamedField { name: self.name.clone(), value: self.value.clone() }
    }
}

/// The message of the error that a row gives when it is to hold names and
/// the backend has none for a column.
pub const UNNAMED_COLUMN: &'static str = "Request name for an unnamed column";

/// Why a row with names could not be built.
#[derive(Debug)]
pub enum RowError<E> {
    /// The backend has no name for a column.
    UnnamedColumn,
    /// The decoder refused the raw value of a column.
    Decode(E),
}

/// The decoded values of one row, in the order of its columns.
#[derive(Debug)]
pub struct DynamicRow<I> {
    values: Vec<I>,
}

impl<I> View for DynamicRow<I> {
    type V = Seq<I>;

    closed spec fn view(&self) -> Seq<I> {
        self.values@
    }
}

impl<I: Clone> Clone for DynamicRow<I> {
    fn clone(&self) -> (copy: Self)
        ensures
            copy@.len() == self@.len(),
            forall|i: int| 0 <= i < self@.len() ==> cloned(self@[i], #[trigger] copy@[i]),
    {
        DynamicRow { values: self.values.clone() }
    }
}

/// `items` is what `decode` gave for the first columns of `columns`, one item
/// for each, in order.
pub open spec fn decoded_from<R, I, E, F: Fn(Option<R>) -> Result<I, E>>(
    decode: F,
    columns: Seq<RawColumn<R>>,
    items: Seq<I>,
) -> bool {
    &&& items.len() <= columns.len()
    &&& forall|i: int|
        0 <= i < items.len() ==> call_ensures(decode, (columns[i].value,), Ok(#[trigger] items[i]))
}

/// `fields` is what the first columns of `columns` gave, one field for each,
/// in order: the column's name, and what `decode` gave for its raw value.
pub open spec fn named_from<R, I, E, F: Fn(Option<R>) -> Result<I, E>>(
    decode: F,
    columns: Seq<RawColumn<R>>,
    fields: Seq<NamedField<I>>,
) -> bool {
    &&& fields.len() <= columns.len()
    &&& forall|i: int|
        #![trigger fields[i]]
        #![trigger columns[i]]
        0 <= i < fields.len() ==> {
            &&& columns[i].name matches Some(name)
            &&& fields[i].name@ == name@
            &&& call_ensures(decode, (columns[i].value,), Ok(fields[i].value))
        }
}

/// What building a row by position may give for `columns`: an item for every
/// column, in order; or the error that `decode` gave for a column, all columns
/// before it decoded.
pub open spec fn is_built_by_position<R, I, E, F: Fn(Option<R>) -> Result<I, E>>(
    decode: F,
    columns: Seq<RawColumn<R>>,
    built: Result<Seq<I>, E>,
) -> bool {
    match built {
        Ok(items) => items.len() == columns.len() && decoded_from(decode, columns, items),
        Err(error) => exists|done: Seq<I>|
            {
                &&& #[trigger] decoded_from(decode, columns, done)
                &&& done.len() < columns.len()
                &&& call_ensures(decode, (columns[done.len() as int].value,), Err(error))
            },
    }
}

/// What building a row with names may give for `columns`: a field for every
/// column, in order; or `UnnamedColumn` for a column without a name, all
/// columns before it named and decoded; or the error that `decode` gave for a
/// column with a name, all columns before it named and decoded.
pub open spec fn is_built_with_names<R, I, E, F: Fn(Option<R>) -> Result<I, E>>(
    decode: F,
    columns: Seq<RawColumn<R>>,
    built: Result<Seq<NamedField<I>>, RowError<E>>,
) -> bool {
    match built {
        Ok(fields) => fields.len() == columns.len() && named_from(decode, columns, fields),
        Err(RowError::UnnamedColumn) => exists|done: Seq<NamedField<I>>|
            {
                &&& #[trigger] named_from(decode, columns, done)
                &&& done.len() < columns.len()
                &&& columns[done.len() as int].name is None
            },
        Err(RowError::Decode(error)) => exists|done: Seq<NamedField<I>>|
            {
                &&& #[trigger] named_from(decode, columns, done)
                &&& done.len() < columns.len()
                &&& columns[done.len() as int].name is Some
                &&& call_ensures(decode, (columns[done.len() as int].value,), Err(error))
            },
    }
}

/// What a row by position holds where every raw value has one outcome,
/// `outcome(raw)`: the items of all columns in order, or the error of the
/// first column that has one.
pub open spec fn decoded_row<R, I, E>(
    outcome: spec_fn(Option<R>) -> Result<I, E>,
    columns: Seq<RawColumn<R>>,
) -> Result<Seq<I>, E>
    decreases columns.len(),
{
    if columns.len() == 0 {
        Ok(Seq::empty())
    } else {
        match decoded_row(outcome, columns.drop_last()) {
            Err(error) => Err(error),
            Ok(items) => match outcome(columns.last().value) {
                Ok(item) => Ok(items.push(item)),
                Err(error) => Err(error),
            },
        }
    }
}

/// What a row with names holds where every raw value has one outcome,
/// `outcome(raw)`: the name and the item of each column in order, or what was
/// wrong with the first column that has no name or no item.
pub open spec fn named_row<R, I, E>(
    outcome: spec_fn(Option<R>) -> Result<I, E>,
    columns: Seq<RawColumn<R>>,
) -> Result<Seq<(Seq<char>, I)>, RowError<E>>
    decreases columns.len(),
{
    if columns.len() == 0 {
        Ok(Seq::empty())
    } else {
        match named_row(outcome, columns.drop_last()) {
            Err(error) => Err(error),
            Ok(fields) => match columns.last().name {
                None => Err(RowError::UnnamedColumn),
                Some(name) => match outcome(columns.last().value) {
                    Ok(item) => Ok(fields.push((name@, item))),
                    Err(error) => Err(RowError::Decode(error)),
                },
            },
        }
    }
}

/// The name and the value of each field, in order.
pub open spec fn names_and_values<I>(fields: Seq<NamedField<I>>) -> Seq<(Seq<char>, I)> {
    Seq::new(fields.len(), |i: int| (fields[i].name@, fields[i].value))
}

/// `name` is the name of the field at `i`, and of no field before it.
pub open spec fn is_first_named<I>(fields: Seq<NamedField<I>>, name: Seq<char>, i: int) -> bool {
    &&& 0 <= i < fields.len()
    &&& fields[i].name@ == name
    &&& forall|j: int| 0 <= j < i ==> (#[trigger] fields[j]).name@ != name
}

/// Some field has the name `name`.
pub open spec fn has_field<I>(fields: Seq<NamedField<I>>, name: Seq<char>) -> bool {
    exists|i: int| 0 <= i < fields.len() && (#[trigger] fields[i]).name@ == name
}

impl<I> DynamicRow<I> {
    /// The row that holds `values`, in their order.
    pub closed spec fn holding(values: Vec<I>) -> Self {
        DynamicRow { values }
    }

    /// The number of values in the row.
    pub fn len(&self) -> (len: usize)
        ensures
            len == self@.len(),
    {
        self.values.len()
    }

    /// The value at `index`, or `None` where the row has fewer values.
    pub fn get(&self, index: usize) -> (value: Option<&I>)
        ensures
            index < self@.len() ==> value == Some(&self@[index as int]),
            index >= self@.len() ==> value is None,
    {
        if index < self.values.len() {
            Some(&self.values[index])
        } else {
            None
        }
    }

    /// Decodes every column of a row, in order, and stops at the first column
    /// that `decode` refuses.
    pub fn build_from_row<R, E, F>(columns: Vec<RawColumn<R>>, decode: F) -> (result: Result<
        DynamicRow<I>,
        E,
    >) where F: Fn(Option<R>) -> Result<I, E>
        requires
            forall|i: int| 0 <= i < columns.len() ==> call_requires(decode, (columns[i].value,)),
        ensures
            is_built_by_position(
                decode,
                columns@,
                match result {
                    Ok(row) => Ok(row@),
                    Err(error) => Err(error),
                },
            ),
    {
        let mut values: Vec<I> = Vec::new();
        for column in it: columns
            invariant
                it.seq() == columns@,
                values.len() == it.index(),
                decoded_from(decode, columns@, values@),
                forall|i: int|
                    0 <= i < columns.len() ==> call_requires(decode, (columns[i].value,)),
        {
            match decode(column.value) {
                Ok(item) => values.push(item),
                Err(error) => {
                    return Err(error);
                },
            }
        }
        Ok(DynamicRow { values })
    }
}

impl<I> DynamicRow<NamedField<I>> {
    /// The value of the first field named `name`, or `None` where no field
    /// has that name.
    pub fn get_by_name(&self, name: &str) -> (value: Option<&I>)
        ensures
            value is Some <==> has_field(self@, name@),
            value matches Some(found) ==> exists|i: int|
                #[trigger] is_first_named(self@, name@, i) && *found == self@[i].value,
    {
        let wanted = name.to_owned();
        let mut i: usize = 0;
        while i < self.values.len()
            invariant
                i <= self.values.len(),
                wanted@ == name@,
                forall|j: int| 0 <= j < i ==> (#[trigger] self@[j]).name@ != name@,
            decreases self.values.len() - i,
        {
            if self.values[i].name == wanted {
                assert(is_first_named(self@, name@, i as int));
                return Some(&self.values[i].value);
            }
            i += 1;
        }
        None
    }

    /// Decodes every column of a row, in order, into a field with the
    /// column's name. Stops at the first column that has no name or whose
    /// value `decode` refuses; the name is asked for first.
    pub fn build_named_from_row<R, E, F>(columns: Vec<RawColumn<R>>, decode: F) -> (result:
        Result<DynamicRow<NamedField<I>>, RowError<E>>) where F: Fn(Option<R>) -> Result<I, E>
        requires
            forall|i: int| 0 <= i < columns.len() ==> call_requires(decode, (columns[i].value,)),
        ensures
            is_built_with_names(
                decode,
                columns@,
                match result {
                    Ok(row) => Ok(row@),
                    Err(error) => Err(error),
                },
            ),
    {
        let mut values: Vec<NamedField<I>> = Vec::new();
        for column in it: columns
            invariant
                it.seq() == columns@,
                values.len() == it.index(),
                named_from(decode, columns@, values@),
                forall|i: int|
                    0 <= i < columns.len() ==> call_requires(decode, (columns[i].value,)),
        {
            let RawColumn { name, value } = column;
            let name = match name {
                Some(name) => name,
                None => {
                    return Err(RowError::UnnamedColumn);
                },
            };
            match decode(value) {
                Ok(value) => values.push(NamedField { name, value }),
                Err(error) => {
                    return Err(RowError::Decode(error));
                },
            }
        }
        Ok(DynamicRow { values })
    }
}

impl<I> Index<usize> for DynamicRow<I> {
    type Output = I;

    /// The value at `index`, which the row must have.
    fn index(&self, index: usize) -> (value: &I)
        ensures
            *value == self@[index as int],
    {
        &self.values[index]
    }
}

impl<I> vstd::std_specs::core::IndexSpecImpl<usize> for DynamicRow<I> {
    open spec fn index_req(&self, index: &usize) -> bool {
        *index < self@.len()
    }
}

impl<'a, I> Index<&'a str> for DynamicRow<NamedField<I>> {
    type Output = I;

    /// The value of the first field named `name`; the row must have a field
    /// of that name.
    fn index(&self, name: &'a str) -> (value: &I)
        ensures
            exists|i: int| #[trigger] is_first_named(self@, name@, i) && *value == self@[i].value,
    {
        match self.get_by_name(name) {
            Some(value) => value,
            None => unreached(),
        }
    }
}

impl<'a, I> vstd::std_specs::core::IndexSpecImpl<&'a str> for DynamicRow<NamedField<I>> {
    open spec fn index_req(&self, name: &&'a str) -> bool {
        has_field(self@, name@)
    }
}

impl<V> IntoIterator for DynamicRow<V> {
    type Item = V;

    type IntoIter = std::vec::IntoIter<V>;

    /// An iterator over the values of the row, in order.
    fn into_iter(self) -> (iter: std::vec::IntoIter<V>)
        ensures
            vstd::std_specs::iter::IteratorSpec::remaining(&iter) == self@,
    {
        broadcast use vstd::std_specs::vec::axiom_spec_into_iter;

        self.values.into_iter()
    }
}

impl<'a, V> IntoIterator for &'a DynamicRow<V> {
    type Item = &'a V;

    type IntoIter = std::slice::Iter<'a, V>;

    /// An iterator over references to the values of the row, in order.
    fn into_iter(self) -> (iter: std::slice::Iter<'a, V>)
        ensures
            vstd::std_specs::iter::IteratorSpec::remaining(&iter) == self@.as_ref(),
    {
        broadcast use vstd::std_specs::slice::axiom_spec_slice_iter;

        self.values.iter()
    }
}

impl<I> From<Vec<I>> for DynamicRow<I> {
    /// The row that holds `values`, in their order.
    fn from(values: Vec<I>) -> (row: Self)
        ensures
            row@ == values@,
    {
        DynamicRow { values }
    }
}

impl<I> vstd::std_specs::convert::FromSpecImpl<Vec<I>> for DynamicRow<I> {
    open spec fn obeys_from_spec() -> bool {
        true
    }

    open spec fn from_spec(values: Vec<I>) -> Self {
        DynamicRow::holding(values)
    }
}

/// Where the first `n` columns have items, the row of these columns holds
/// the items.
proof fn lemma_decoded_prefix<R, I, E>(
    outcome: spec_fn(Option<R>) -> Result<I, E>,
    columns: Seq<RawColumn<R>>,
    items: Seq<I>,
    n: int,
)
    requires
        0 <= n <= items.len() <= columns.len(),
        forall|i: int|
            0 <= i < items.len() ==> outcome(columns[i].value) == Ok::<I, E>(#[trigger] items[i]),
    ensures
        decoded_row(outcome, columns.take(n)) == Ok::<Seq<I>, E>(items.take(n)),
    decreases n,
{
    if n == 0 {
        assert(items.take(0) =~= Seq::<I>::empty());
    } else {
        lemma_decoded_prefix(outcome, columns, items, n - 1);
        assert(columns.take(n).drop_last() =~= columns.take(n - 1));
        assert(items.take(n - 1).push(items[n - 1]) =~= items.take(n));
    }
}

/// Where the column at `first` is the first without an item, the row of any
/// run of columns that holds it is its error.
proof fn lemma_decoded_error<R, I, E>(
    outcome: spec_fn(Option<R>) -> Result<I, E>,
    columns: Seq<RawColumn<R>>,
    first: int,
    error: E,
    n: int,
)
    requires
        0 <= first < n <= columns.len(),
        decoded_row(outcome, columns.take(first)) is Ok,
        outcome(columns[first].value) == Err::<I, E>(error),
    ensures
        decoded_row(outcome, columns.take(n)) == Err::<Seq<I>, E>(error),
    decreases n,
{
    assert(columns.take(n).drop_last() =~= columns.take(n - 1));
    if n - 1 > first {
        lemma_decoded_error(outcome, columns, first, error, n - 1);
    }
}

/// Where the decoder gives one outcome for each raw value, what
/// `build_from_row` returns is fixed by the columns: the items of all columns
/// in order, or the error of the first column that the decoder refuses.
pub proof fn lemma_row_by_position_is_determined<R, I, E, F: Fn(Option<R>) -> Result<I, E>>(
    decode: F,
    outcome: spec_fn(Option<R>) -> Result<I, E>,
    columns: Seq<RawColumn<R>>,
    built: Result<Seq<I>, E>,
)
    requires
        forall|raw: Option<R>, out: Result<I, E>| #[trigger]
            call_ensures(decode, (raw,), out) ==> out == outcome(raw),
        is_built_by_position(decode, columns, built),
    ensures
        built == decoded_row(outcome, columns),
{
    match built {
        Ok(items) => {
            lemma_decoded_prefix(outcome, columns, items, items.len() as int);
            assert(columns.take(items.len() as int) =~= columns);
            assert(items.take(items.len() as int) =~= items);
        },
        Err(error) => {
            let done = choose|done: Seq<I>|
                {
                    &&& #[trigger] decoded_from(decode, columns, done)
                    &&& done.len() < columns.len()
                    &&& call_ensures(decode, (columns[done.len() as int].value,), Err(error))
                };
            lemma_decoded_prefix(outcome, columns, done, done.len() as int);
            lemma_decoded_error(outcome, columns, done.len() as int, error, columns.len() as int);
            assert(columns.take(columns.len() as int) =~= columns);
        },
    }
}

/// Where the first `n` columns have names and items, the row of these columns
/// holds the names and the items.
proof fn lemma_named_prefix<R, I, E>(
    outcome: spec_fn(Option<R>) -> Result<I, E>,
    columns: Seq<RawColumn<R>>,
    fields: Seq<NamedField<I>>,
    n: int,
)
    requires
        0 <= n <= fields.len() <= columns.len(),
        forall|i: int|
            #![trigger fields[i]]
            #![trigger columns[i]]
            0 <= i < fields.len() ==> {
                &&& columns[i].name matches Some(name)
                &&& fields[i].name@ == name@
                &&& outcome(columns[i].value) == Ok::<I, E>(fields[i].value)
            },
    ensures
        named_row(outcome, columns.take(n)) == Ok::<Seq<(Seq<char>, I)>, RowError<E>>(
            names_and_values(fields.take(n)),
        ),
    decreases n,
{
    if n == 0 {
        assert(names_and_values(fields.take(0)) =~= Seq::<(Seq<char>, I)>::empty());
    } else {
        lemma_named_prefix(outcome, columns, fields, n - 1);
        assert(columns.take(n).drop_last() =~= columns.take(n - 1));
        let last = fields[n - 1];
        assert(names_and_values(fields.take(n - 1)).push((last.name@, last.value))
            =~= names_and_values(fields.take(n)));
    }
}

/// Where the column at `first` is the first without a name or without an
/// item, the row of any run of columns that holds it is what is wrong with it.
proof fn lemma_named_error<R, I, E>(
    outcome: spec_fn(Option<R>) -> Result<I, E>,
    columns: Seq<RawColumn<R>>,
    first: int,
    error: RowError<E>,
    n: int,
)
    requires
        0 <= first < n <= columns.len(),
        named_row(outcome, columns.take(first)) is Ok,
        match error {
            RowError::UnnamedColumn => columns[first].name is None,
            RowError::Decode(refused) => columns[first].name is Some && outcome(
                columns[first].value,
            ) == Err::<I, E>(refused),
        },
    ensures
        named_row(outcome, columns.take(n)) == Err::<Seq<(Seq<char>, I)>, RowError<E>>(error),
    decreases n,
{
    assert(columns.take(n).drop_last() =~= columns.take(n - 1));
    if n - 1 > first {
        lemma_named_error(outcome, columns, first, error, n - 1);
    }
}

/// Where the decoder gives one outcome for each raw value, what
/// `build_named_from_row` returns is fixed by the columns: the name and the
/// item of each column in order, or what was wrong with the first column that
/// has no name or that the decoder refuses.
pub proof fn lemma_row_with_names_is_determined<R, I, E, F: Fn(Option<R>) -> Result<I, E>>(
    decode: F,
    outcome: spec_fn(Option<R>) -> Result<I, E>,
    columns: Seq<RawColumn<R>>,
    built: Result<Seq<NamedField<I>>, RowError<E>>,
)
    requires
        forall|raw: Option<R>, out: Result<I, E>| #[trigger]
            call_ensures(decode, (raw,), out) ==> out == outcome(raw),
        is_built_with_names(decode, columns, built),
    ensures
        match built {
            Ok(fields) => named_row(outcome, columns) == Ok::<
                Seq<(Seq<char>, I)>,
                RowError<E>,
            >(names_and_values(fields)),
            Err(error) => named_row(outcome, columns) == Err::<Seq<(Seq<char>, I)>, RowError<E>>(
                error,
            ),
        },
{
    assert(columns.take(columns.len() as int) =~= columns);
    match built {
        Ok(fields) => {
            lemma_named_prefix(outcome, columns, fields, fields.len() as int);
            assert(fields.take(fields.len() as int) =~= fields);
        },
        Err(RowError::UnnamedColumn) => {
            let done = choose|done: Seq<NamedField<I>>|
                {
                    &&& #[trigger] named_from(decode, columns, done)
                    &&& done.len() < columns.len()
                    &&& columns[done.len() as int].name is None
                };
            lemma_named_prefix(outcome, columns, done, done.len() as int);
            lemma_named_error(
                outcome,
                columns,
                done.len() as int,
                RowError::UnnamedColumn,
                columns.len() as int,
            );
        },
        Err(RowError::Decode(error)) => {
            let done = choose|done: Seq<NamedField<I>>|
                {
                    &&& #[trigger] named_from(decode, columns, done)
                    &&& done.len() < columns.len()
                    &&& columns[done.len() as int].name is Some
                    &&& call_ensures(decode, (columns[done.len() as int].value,), Err(error))
                };
            lemma_named_prefix(outcome, columns, done, done.len() as int);
            lemma_named_error(
                outcome,
                columns,
                done.len() as int,
                RowError::Decode(error),
                columns.len() as int,
            );
        },
    }
}

} // verus!
