//! A select list that is put together at run time.

use crate::ast_pass::{
    fragment_sql, lemma_parts_sql_concat, lemma_parts_sql_push, parts_sql, AstPass, AstPassView,
    QueryFragment, SqlPartView,
};
use crate::dynamic_value::{is_first_named, named_from, Any, NamedField, RawColumn};
use crate::expression::{Expression, SelectableExpression};
use crate::query_builder::Backend;
use std::marker::PhantomData;
use vstd::prelude::*;

verus! {

/// The fields of a select list on the query source `QS`, in the order in which
/// they were added. Each field is kept as what it writes, so fields of every
/// type stand in one list, and the list as a whole has the SQL type `Any`.
#[derive(Debug)]
pub struct DynamicSelectClause<QS> {
    selects: Vec<AstPass>,
    p: PhantomData<QS>,
}

/// What the fields write when the list is walked: what each field writes, in
/// order, with the SQL `", "` between two fields.
pub open spec fn select_list_parts(fields: Seq<AstPassView>) -> Seq<SqlPartView>
    decreases fields.len(),
{
    if fields.len() == 0 {
        Seq::empty()
    } else if fields.len() == 1 {
        fields[0].parts
    } else {
        select_list_parts(fields.drop_last()) + seq![SqlPartView::Sql(seq![',', ' '])]
            + fields.last().parts
    }
}

/// The texts of `items`, in order, with `separator` between two of them.
pub open spec fn join_sql(items: Seq<Seq<char>>, separator: Seq<char>) -> Seq<char>
    decreases items.len(),
{
    if items.len() == 0 {
        Seq::empty()
    } else if items.len() == 1 {
        items[0]
    } else {
        join_sql(items.drop_last(), separator) + separator + items.last()
    }
}

/// The SQL text of each field on `backend`, in order.
pub open spec fn field_sqls(backend: Backend, fields: Seq<AstPassView>) -> Seq<Seq<char>> {
    Seq::new(fields.len(), |i: int| parts_sql(backend, fields[i].parts))
}

/// The SQL text of a select list on `backend`: the texts of its fields, joined
/// by `", "`.
pub open spec fn select_list_sql(backend: Backend, fields: Seq<AstPassView>) -> Seq<char> {
    join_sql(field_sqls(backend, fields), seq![',', ' '])
}

impl<QS> View for DynamicSelectClause<QS> {
    type V = Seq<AstPassView>;

    closed spec fn view(&self) -> Seq<AstPassView> {
        Seq::new(self.selects@.len(), |i: int| self.selects@[i]@)
    }
}

impl<QS> DynamicSelectClause<QS> {
    /// A select list without fields.
    pub fn new() -> (clause: Self)
        ensures
            clause@ == Seq::<AstPassView>::empty(),
    {
        DynamicSelectClause { selects: Vec::new(), p: PhantomData }
    }

    /// Puts `field` at the end of the list.
    pub fn add_field<F>(&mut self, field: F) where F: QueryFragment + SelectableExpression<QS>
        ensures
            final(self)@ == old(self)@.push(
                (AstPassView {
                    parts: field.parts(),
                    safe_to_cache_prepared: field.cacheable(),
                }),
            ),
    {
        let mut written = AstPass::new();
        field.walk_ast(&mut written);
        self.selects.push(written);
        assert(self@ =~= old(self)@.push(
            (AstPassView { parts: field.parts(), safe_to_cache_prepared: field.cacheable() }),
        ));
    }

    /// The number of fields in the list.
    pub fn len(&self) -> (len: usize)
        ensures
            len == self@.len(),
    {
        self.selects.len()
    }
}

/// A select list is written as its fields, in the order in which they were
/// added, with `", "` between two fields and nothing before the first or after
/// the last. It is cacheable where each of its fields is.
impl<QS> QueryFragment for DynamicSelectClause<QS> {
    open spec fn parts(&self) -> Seq<SqlPartView> {
        select_list_parts(self@)
    }

    open spec fn cacheable(&self) -> bool {
        forall|i: int| 0 <= i < self@.len() ==> (#[trigger] self@[i]).safe_to_cache_prepared
    }

    fn walk_ast(&self, out: &mut AstPass) {
        let mut first = true;
        let mut i: usize = 0;
        while i < self.selects.len()
            invariant
                i <= self.selects.len(),
                self.selects@.len() == self@.len(),
                first == (i == 0),
                out@.parts == old(out)@.parts + select_list_parts(self@.take(i as int)),
                out@.safe_to_cache_prepared == (old(out)@.safe_to_cache_prepared && forall|j: int|
                    0 <= j < i ==> (#[trigger] self@[j]).safe_to_cache_prepared),
            decreases self.selects.len() - i,
        {
            if first {
                first = false;
            } else {
                out.push_sql(", ");
                proof {
                    reveal_strlit(", ");
                    assert(", "@ =~= seq![',', ' ']);
                }
            }
            self.selects[i].walk_ast(out);
            assert(self@.take(i + 1).drop_last() =~= self@.take(i as int));
            i += 1;
        }
        assert(self@.take(i as int) =~= self@);
    }
}

impl<QS> Expression for DynamicSelectClause<QS> {
    type SqlType = Any;
}

impl<QS> SelectableExpression<QS> for DynamicSelectClause<QS> {
}

/// The text of what the fields of a select list write is the texts of the
/// fields, joined by `", "`.
proof fn lemma_select_list_parts_sql(backend: Backend, fields: Seq<AstPassView>)
    ensures
        parts_sql(backend, select_list_parts(fields)) == select_list_sql(backend, fields),
    decreases fields.len(),
{
    if fields.len() > 1 {
        let separator = seq![SqlPartView::Sql(seq![',', ' '])];
        let front = fields.drop_last();
        lemma_select_list_parts_sql(backend, front);
        lemma_parts_sql_concat(backend, select_list_parts(front), separator);
        lemma_parts_sql_concat(backend, select_list_parts(front) + separator, fields.last().parts);
        lemma_parts_sql_push(backend, Seq::empty(), SqlPartView::Sql(seq![',', ' ']));
        assert(field_sqls(backend, fields).drop_last() =~= field_sqls(backend, front));
    }
}

/// On every backend the text of a select list is the texts of its fields, in
/// the order in which they were added, joined by `", "`.
pub proof fn lemma_select_list_sql<QS>(clause: &DynamicSelectClause<QS>, backend: Backend)
    ensures
        fragment_sql(clause, backend) == select_list_sql(backend, clause@),
{
    lemma_select_list_parts_sql(backend, clause@);
}

/// Where a backend reports one column for each field of a select list, in the
/// order of the list, a row with names that was built from the columns has one
/// field for each field of the list. Its field at `i` holds the name and the
/// decoded value of the column at `i`, and a lookup by that name finds it
/// unless an earlier column has the same name.
pub proof fn lemma_row_follows_select_list<QS, R, I, E, F: Fn(Option<R>) -> Result<I, E>>(
    clause: &DynamicSelectClause<QS>,
    decode: F,
    columns: Seq<RawColumn<R>>,
    row: Seq<NamedField<I>>,
    i: int,
)
    requires
        columns.len() == clause@.len(),
        row.len() == columns.len(),
        named_from(decode, columns, row),
        0 <= i < clause@.len(),
        forall|j: int|
            0 <= j < i ==> (#[trigger] columns[j]).name.unwrap()@ != columns[i].name.unwrap()@,
    ensures
        row.len() == clause@.len(),
        row[i].name@ == columns[i].name.unwrap()@,
        call_ensures(decode, (columns[i].value,), Ok(row[i].value)),
        is_first_named(row, row[i].name@, i),
{
}

} // verus!
