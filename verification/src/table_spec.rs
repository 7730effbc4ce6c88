//! Specification of one physical table, the diff between two snapshots of
//! it, and its rendering to `CREATE`/`DROP` DDL.

use vstd::prelude::*;

use crate::column_spec::{column_ddl, columns_differ, ColumnSpec, ColumnSpecV};
use crate::op::{SchemaOp, SchemaOpV, SchemaStatement};
use crate::text::{
    contains_str, quoted, same_elements, sort_names, sorted_comma_list, sorted_comma_sep,
    sorted_names, str_eq,
};

verus! {

/// Specification of one table: its name and its ordered columns.
#[derive(Debug, PartialEq)]
pub struct TableSpec {
    pub name: String,
    pub columns: Vec<ColumnSpec>,
}

/// Mathematical model of a `TableSpec`.
pub struct TableSpecV {
    pub name: Seq<char>,
    pub columns: Seq<ColumnSpecV>,
}

impl View for TableSpec {
    type V = TableSpecV;

    open spec fn view(&self) -> TableSpecV {
        TableSpecV { name: self.name@, columns: self.columns.deep_view() }
    }
}

impl DeepView for TableSpec {
    type V = TableSpecV;

    open spec fn deep_view(&self) -> TableSpecV {
        self.view()
    }
}

impl Clone for TableSpec {
    fn clone(&self) -> (res: Self)
        ensures
            res@ == self@,
    {
        let mut columns: Vec<ColumnSpec> = Vec::new();
        let mut i: usize = 0;
        while i < self.columns.len()
            invariant
                i <= self.columns.len(),
                columns.deep_view() == self.columns.deep_view().subrange(0, i as int),
            decreases self.columns.len() - i,
        {
            let ghost before = columns.deep_view();
            columns.push(self.columns[i].clone());
            proof {
                assert(columns.deep_view() =~= before.push(self.columns.deep_view()[i as int]));
                assert(columns.deep_view() =~= self.columns.deep_view().subrange(
                    0,
                    i + 1 as int,
                ));
            }
            i = i + 1;
        }
        proof {
            let dv = self.columns.deep_view();
            assert(dv.subrange(0, dv.len() as int) =~= dv);
        }
        TableSpec { name: self.name.clone(), columns }
    }
}

/// Column names are unique within a table.
pub open spec fn table_wf(t: TableSpecV) -> bool {
    forall|i: int, j: int|
        0 <= i < j < t.columns.len() ==> (#[trigger] t.columns[i]).name != (
        #[trigger] t.columns[j]).name
}

/// The name added to the accumulator unless already present.
pub open spec fn add_name(acc: Seq<Seq<char>>, n: Seq<char>) -> Seq<Seq<char>> {
    if acc.contains(n) {
        acc
    } else {
        acc.push(n)
    }
}

/// The names added to the accumulator left to right, each unless already
/// present.
pub open spec fn add_names(acc: Seq<Seq<char>>, ns: Seq<Seq<char>>) -> Seq<Seq<char>>
    decreases ns.len(),
{
    if ns.len() == 0 {
        acc
    } else {
        add_name(add_names(acc, ns.drop_last()), ns.last())
    }
}

/// The names of the table's named unique constraints, in order of first
/// appearance over the columns and their constraint lists.
pub open spec fn constraint_names(cols: Seq<ColumnSpecV>) -> Seq<Seq<char>>
    decreases cols.len(),
{
    if cols.len() == 0 {
        Seq::empty()
    } else {
        add_names(constraint_names(cols.drop_last()), cols.last().unique_constraints)
    }
}

/// The names, in column order, of the columns participating in the named
/// unique constraint.
pub open spec fn constraint_columns(cols: Seq<ColumnSpecV>, n: Seq<char>) -> Seq<Seq<char>>
    decreases cols.len(),
{
    if cols.len() == 0 {
        Seq::empty()
    } else {
        let prefix = constraint_columns(cols.drop_last(), n);
        if cols.last().unique_constraints.contains(n) {
            prefix.push(cols.last().name)
        } else {
            prefix
        }
    }
}

/// Each named unique constraint paired with its participating column names.
pub open spec fn named_constraints(cols: Seq<ColumnSpecV>) -> Seq<(Seq<char>, Seq<Seq<char>>)> {
    Seq::new(
        constraint_names(cols).len(),
        |i: int| (constraint_names(cols)[i], constraint_columns(cols, constraint_names(cols)[i])),
    )
}

/// The first column of the given name, if any.
pub open spec fn find_col(cols: Seq<ColumnSpecV>, name: Seq<char>) -> Option<ColumnSpecV>
    decreases cols.len(),
{
    if cols.len() == 0 {
        Option::None
    } else if cols[0].name == name {
        Option::Some(cols[0])
    } else {
        find_col(cols.skip(1), name)
    }
}

/// Ops for one existing column: a matched column that differs is replaced
/// (drop then add); an unmatched one is deleted.
pub open spec fn column_op_for(ex: TableSpecV, tg: TableSpecV, c: ColumnSpecV) -> Seq<SchemaOpV> {
    match find_col(tg.columns, c.name) {
        Option::Some(n) => {
            if columns_differ(c, n) {
                seq![
                    SchemaOpV::DeleteColumn { table_name: ex.name, column_name: c.name },
                    SchemaOpV::CreateColumn { table_name: tg.name, column: n },
                ]
            } else {
                Seq::empty()
            }
        },
        Option::None => seq![
            SchemaOpV::DeleteColumn { table_name: ex.name, column_name: c.name },
        ],
    }
}

/// Ops for the existing columns, in declaration order.
pub open spec fn column_ops(ex: TableSpecV, tg: TableSpecV, cols: Seq<ColumnSpecV>) -> Seq<
    SchemaOpV,
>
    decreases cols.len(),
{
    if cols.len() == 0 {
        Seq::empty()
    } else {
        column_ops(ex, tg, cols.drop_last()) + column_op_for(ex, tg, cols.last())
    }
}

/// A `CreateColumn` for every target column absent from the existing table,
/// in declaration order.
pub open spec fn create_ops(ex: TableSpecV, tg: TableSpecV, cols: Seq<ColumnSpecV>) -> Seq<
    SchemaOpV,
>
    decreases cols.len(),
{
    if cols.len() == 0 {
        Seq::empty()
    } else {
        create_ops(ex, tg, cols.drop_last()) + (if find_col(ex.columns, cols.last().name) is None {
            seq![SchemaOpV::CreateColumn { table_name: tg.name, column: cols.last() }]
        } else {
            Seq::empty()
        })
    }
}

/// A `RemoveUniqueConstraint` for every existing constraint name missing from
/// the target.
pub open spec fn removal_ops(tg: TableSpecV, names: Seq<Seq<char>>) -> Seq<SchemaOpV>
    decreases names.len(),
{
    if names.len() == 0 {
        Seq::empty()
    } else {
        removal_ops(tg, names.drop_last()) + (if constraint_names(tg.columns).contains(
            names.last(),
        ) {
            Seq::empty()
        } else {
            seq![
                SchemaOpV::RemoveUniqueConstraint { table_name: tg.name, constraint: names.last() },
            ]
        })
    }
}

/// For every target constraint name: create it when absent from the existing
/// table; when present with a different column set, remove the stale
/// constraint and create the new one. The created op carries its column names
/// sorted.
pub open spec fn change_ops(ex: TableSpecV, tg: TableSpecV, names: Seq<Seq<char>>) -> Seq<
    SchemaOpV,
>
    decreases names.len(),
{
    if names.len() == 0 {
        Seq::empty()
    } else {
        let n = names.last();
        let tg_cols = constraint_columns(tg.columns, n);
        change_ops(ex, tg, names.drop_last()) + (if constraint_names(ex.columns).contains(n) {
            if same_elements(constraint_columns(ex.columns, n), tg_cols) {
                Seq::empty()
            } else {
                seq![
                    SchemaOpV::RemoveUniqueConstraint { table_name: tg.name, constraint: n },
                    SchemaOpV::CreateUniqueConstraint {
                        table_name: tg.name,
                        constraint_name: n,
                        columns: sort_names(tg_cols),
                    },
                ]
            }
        } else {
            seq![
                SchemaOpV::CreateUniqueConstraint {
                    table_name: tg.name,
                    constraint_name: n,
                    columns: sort_names(tg_cols),
                },
            ]
        })
    }
}

/// The full diff of two snapshots of one table: column changes over the
/// existing columns, creations for new columns, then constraint removals and
/// constraint changes.
pub open spec fn spec_diff(ex: TableSpecV, tg: TableSpecV) -> Seq<SchemaOpV> {
    column_ops(ex, tg, ex.columns) + create_ops(ex, tg, tg.columns) + removal_ops(
        tg,
        constraint_names(ex.columns),
    ) + change_ops(ex, tg, constraint_names(tg.columns))
}

/// The column lines of a `CREATE TABLE` statement, joined with `,\n\t`.
pub open spec fn column_lines(cols: Seq<ColumnSpecV>) -> Seq<char>
    decreases cols.len(),
{
    if cols.len() == 0 {
        Seq::empty()
    } else if cols.len() == 1 {
        column_ddl(cols[0])
    } else {
        column_lines(cols.drop_last()) + ",\n\t"@ + column_ddl(cols.last())
    }
}

/// The `CREATE TABLE` statement defining all columns. Constraints are never
/// inlined into the column list; they follow in `creation_posts`.
pub open spec fn creation_statement(t: TableSpecV) -> Seq<char> {
    "CREATE TABLE "@ + quoted(t.name) + " (\n\t"@ + column_lines(t.columns) + "\n);"@
}

/// The statement adding one named unique constraint.
pub open spec fn add_constraint_statement(
    table: Seq<char>,
    name: Seq<char>,
    columns: Seq<Seq<char>>,
) -> Seq<char> {
    "ALTER TABLE "@ + quoted(table) + " ADD CONSTRAINT "@ + quoted(name) + " UNIQUE ("@
        + sorted_comma_sep(columns) + ");"@
}

/// The statements adding the table's named unique constraints, one per
/// constraint, run after the `CREATE TABLE` statement.
pub open spec fn creation_posts(t: TableSpecV) -> Seq<Seq<char>> {
    Seq::new(
        constraint_names(t.columns).len(),
        |i: int|
            add_constraint_statement(
                t.name,
                constraint_names(t.columns)[i],
                constraint_columns(t.columns, constraint_names(t.columns)[i]),
            ),
    )
}

/// The statement dropping one named constraint.
pub open spec fn drop_constraint_statement(table: Seq<char>, name: Seq<char>) -> Seq<char> {
    "ALTER TABLE "@ + quoted(table) + " DROP CONSTRAINT "@ + quoted(name) + ";"@
}

/// The statements dropping the table's named unique constraints, run before
/// the `DROP TABLE` statement.
pub open spec fn deletion_pres(t: TableSpecV) -> Seq<Seq<char>> {
    Seq::new(
        constraint_names(t.columns).len(),
        |i: int| drop_constraint_statement(t.name, constraint_names(t.columns)[i]),
    )
}

/// The cascading `DROP TABLE` statement.
pub open spec fn deletion_statement(t: TableSpecV) -> Seq<char> {
    "DROP TABLE "@ + quoted(t.name) + " CASCADE;"@
}

proof fn lemma_find_col_self(cols: Seq<ColumnSpecV>, k: int)
    requires
        0 <= k < cols.len(),
        forall|i: int, j: int|
            0 <= i < j < cols.len() ==> (#[trigger] cols[i]).name != (#[trigger] cols[j]).name,
    ensures
        find_col(cols, cols[k].name) == Option::Some(cols[k]),
    decreases cols.len(),
{
    if k == 0 {
    } else {
        assert(cols[0].name != cols[k].name);
        let t = cols.skip(1);
        assert forall|i: int, j: int| 0 <= i < j < t.len() implies (#[trigger] t[i]).name != (
        #[trigger] t[j]).name by {
            assert(t[i] == cols[i + 1]);
            assert(t[j] == cols[j + 1]);
        }
        lemma_find_col_self(t, k - 1);
        assert(t[k - 1] == cols[k]);
    }
}

proof fn lemma_column_ops_identity(t: TableSpecV, cols: Seq<ColumnSpecV>)
    requires
        forall|k: int|
            0 <= k < cols.len() ==> find_col(t.columns, (#[trigger] cols[k]).name)
                == Option::Some(cols[k]),
    ensures
        column_ops(t, t, cols) == Seq::<SchemaOpV>::empty(),
    decreases cols.len(),
{
    if cols.len() == 0 {
    } else {
        let pfx = cols.drop_last();
        assert(forall|k: int| 0 <= k < pfx.len() ==> #[trigger] pfx[k] == cols[k]);
        lemma_column_ops_identity(t, pfx);
        assert(!columns_differ(cols.last(), cols.last()));
        assert(column_ops(t, t, cols) =~= Seq::<SchemaOpV>::empty());
    }
}

proof fn lemma_create_ops_identity(t: TableSpecV, cols: Seq<ColumnSpecV>)
    requires
        forall|k: int|
            0 <= k < cols.len() ==> find_col(t.columns, (#[trigger] cols[k]).name) is Some,
    ensures
        create_ops(t, t, cols) == Seq::<SchemaOpV>::empty(),
    decreases cols.len(),
{
    if cols.len() == 0 {
    } else {
        let pfx = cols.drop_last();
        assert(forall|k: int| 0 <= k < pfx.len() ==> #[trigger] pfx[k] == cols[k]);
        lemma_create_ops_identity(t, pfx);
        assert(create_ops(t, t, cols) =~= Seq::<SchemaOpV>::empty());
    }
}

proof fn lemma_removal_ops_identity(t: TableSpecV, names: Seq<Seq<char>>)
    requires
        forall|k: int|
            0 <= k < names.len() ==> constraint_names(t.columns).contains(#[trigger] names[k]),
    ensures
        removal_ops(t, names) == Seq::<SchemaOpV>::empty(),
    decreases names.len(),
{
    if names.len() == 0 {
    } else {
        let pfx = names.drop_last();
        assert(forall|k: int| 0 <= k < pfx.len() ==> #[trigger] pfx[k] == names[k]);
        lemma_removal_ops_identity(t, pfx);
        assert(removal_ops(t, names) =~= Seq::<SchemaOpV>::empty());
    }
}

proof fn lemma_change_ops_identity(t: TableSpecV, names: Seq<Seq<char>>)
    requires
        forall|k: int|
            0 <= k < names.len() ==> constraint_names(t.columns).contains(#[trigger] names[k]),
    ensures
        change_ops(t, t, names) == Seq::<SchemaOpV>::empty(),
    decreases names.len(),
{
    if names.len() == 0 {
    } else {
        let pfx = names.drop_last();
        assert(forall|k: int| 0 <= k < pfx.len() ==> #[trigger] pfx[k] == names[k]);
        lemma_change_ops_identity(t, pfx);
        assert(same_elements(
            constraint_columns(t.columns, names.last()),
            constraint_columns(t.columns, names.last()),
        ));
        assert(change_ops(t, t, names) =~= Seq::<SchemaOpV>::empty());
    }
}

/// Diffing two identical snapshots of a table yields no schema changes: the
/// diff is idempotent on a table whose column names are unique.
pub proof fn lemma_diff_identity(t: TableSpecV)
    requires
        table_wf(t),
    ensures
        spec_diff(t, t) == Seq::<SchemaOpV>::empty(),
{
    assert forall|k: int| 0 <= k < t.columns.len() implies find_col(
        t.columns,
        (#[trigger] t.columns[k]).name,
    ) == Option::Some(t.columns[k]) by {
        lemma_find_col_self(t.columns, k);
    }
    lemma_column_ops_identity(t, t.columns);
    lemma_create_ops_identity(t, t.columns);
    let names = constraint_names(t.columns);
    assert(forall|k: int| 0 <= k < names.len() ==> names.contains(#[trigger] names[k]));
    lemma_removal_ops_identity(t, names);
    lemma_change_ops_identity(t, names);
    assert(spec_diff(t, t) =~= Seq::<SchemaOpV>::empty());
}

impl TableSpec {
    /// A table from its name and columns.
    pub fn new(name: String, columns: Vec<ColumnSpec>) -> (r: Self)
        ensures
            r@.name == name@,
            r@.columns == columns.deep_view(),
    {
        Self { name, columns }
    }

    /// The constraint names, in order of first appearance.
    fn constraint_name_list(&self) -> (r: Vec<String>)
        ensures
            r.deep_view() == constraint_names(self@.columns),
    {
        let ghost cols = self@.columns;
        let mut keys: Vec<String> = Vec::new();
        let mut i: usize = 0;
        while i < self.columns.len()
            invariant
                i <= self.columns.len(),
                cols == self@.columns,
                cols.len() == self.columns.len(),
                keys.deep_view() == constraint_names(cols.subrange(0, i as int)),
            decreases self.columns.len() - i,
        {
            let c = &self.columns[i];
            assert(c@ == cols[i as int]);
            let ghost base = constraint_names(cols.subrange(0, i as int));
            let ghost ns = c@.unique_constraints;
            let mut k: usize = 0;
            while k < c.unique_constraints.len()
                invariant
                    k <= c.unique_constraints.len(),
                    ns == c@.unique_constraints,
                    ns.len() == c.unique_constraints.len(),
                    keys.deep_view() == add_names(base, ns.subrange(0, k as int)),
                decreases c.unique_constraints.len() - k,
            {
                let n = &c.unique_constraints[k];
                assert(n@ == ns[k as int]);
                let ghost before = keys.deep_view();
                if !contains_str(&keys, n.as_str()) {
                    keys.push(n.clone());
                    proof {
                        assert(keys.deep_view() =~= before.push(n@));
                    }
                }
                proof {
                    assert(ns.subrange(0, k + 1 as int).drop_last() =~= ns.subrange(0, k as int));
                    assert(ns.subrange(0, k + 1 as int).last() == ns[k as int]);
                }
                k = k + 1;
            }
            proof {
                assert(ns.subrange(0, ns.len() as int) =~= ns);
                assert(cols.subrange(0, i + 1 as int).drop_last() =~= cols.subrange(0, i as int));
                assert(cols.subrange(0, i + 1 as int).last() == cols[i as int]);
            }
            i = i + 1;
        }
        proof {
            assert(cols.subrange(0, cols.len() as int) =~= cols);
        }
        keys
    }

    /// The names of the columns participating in the named constraint, in
    /// column order.
    fn constraint_column_list(&self, name: &str) -> (r: Vec<String>)
        ensures
            r.deep_view() == constraint_columns(self@.columns, name@),
    {
        let ghost cols = self@.columns;
        let mut r: Vec<String> = Vec::new();
        let mut i: usize = 0;
        while i < self.columns.len()
            invariant
                i <= self.columns.len(),
                cols == self@.columns,
                cols.len() == self.columns.len(),
                r.deep_view() == constraint_columns(cols.subrange(0, i as int), name@),
            decreases self.columns.len() - i,
        {
            let c = &self.columns[i];
            assert(c@ == cols[i as int]);
            let ghost before = r.deep_view();
            if contains_str(&c.unique_constraints, name) {
                r.push(c.name.clone());
                proof {
                    assert(r.deep_view() =~= before.push(c@.name));
                }
            }
            proof {
                assert(cols.subrange(0, i + 1 as int).drop_last() =~= cols.subrange(0, i as int));
                assert(cols.subrange(0, i + 1 as int).last() == cols[i as int]);
            }
            i = i + 1;
        }
        proof {
            assert(cols.subrange(0, cols.len() as int) =~= cols);
        }
        r
    }

    /// Each named unique constraint of the table paired with the names of the
    /// columns participating in it.
    pub fn named_unique_constraints(&self) -> (r: Vec<(String, Vec<String>)>)
        ensures
            r.deep_view() == named_constraints(self@.columns),
    {
        let names = self.constraint_name_list();
        let ghost ns = names.deep_view();
        let mut r: Vec<(String, Vec<String>)> = Vec::new();
        let mut j: usize = 0;
        while j < names.len()
            invariant
                j <= names.len(),
                ns == names.deep_view(),
                ns.len() == names.len(),
                ns == constraint_names(self@.columns),
                r.deep_view() == named_constraints(self@.columns).subrange(0, j as int),
            decreases names.len() - j,
        {
            let ghost before = r.deep_view();
            let name = names[j].clone();
            assert(name@ == ns[j as int]);
            let columns = self.constraint_column_list(name.as_str());
            r.push((name, columns));
            proof {
                let nc = named_constraints(self@.columns);
                assert(nc[j as int] == (ns[j as int], constraint_columns(
                    self@.columns,
                    ns[j as int],
                )));
                assert(r.deep_view() =~= before.push(
                    (ns[j as int], constraint_columns(self@.columns, ns[j as int])),
                ));
                assert(r.deep_view() =~= nc.subrange(0, j + 1 as int));
            }
            j = j + 1;
        }
        proof {
            assert(named_constraints(self@.columns).subrange(
                0,
                named_constraints(self@.columns).len() as int,
            ) =~= named_constraints(self@.columns));
        }
        r
    }

    /// The first column of the given name, if any.
    fn find_column(&self, name: &str) -> (r: Option<&ColumnSpec>)
        ensures
            match r {
                Option::Some(c) => find_col(self@.columns, name@) == Option::Some(c@),
                Option::None => find_col(self@.columns, name@) is None,
            },
    {
        let ghost cols = self@.columns;
        proof {
            assert(cols.skip(0) =~= cols);
        }
        let mut i: usize = 0;
        while i < self.columns.len()
            invariant
                i <= self.columns.len(),
                cols == self@.columns,
                cols.len() == self.columns.len(),
                find_col(cols, name@) == find_col(cols.skip(i as int), name@),
            decreases self.columns.len() - i,
        {
            let c = &self.columns[i];
            assert(c@ == cols[i as int]);
            assert(cols.skip(i as int)[0] == cols[i as int]);
            if str_eq(c.name.as_str(), name) {
                return Some(c);
            }
            proof {
                assert(cols.skip(i as int).skip(1) =~= cols.skip(i + 1 as int));
            }
            i = i + 1;
        }
        proof {
            assert(cols.skip(cols.len() as int) =~= Seq::<ColumnSpecV>::empty());
        }
        None
    }

    /// The extensions the table's columns require: a `Uuid` column asks for
    /// the `pgcrypto` extension.
    pub fn get_required_extensions(&self) -> (r: Vec<String>)
        ensures
            r.deep_view() == if (exists|i: int|
                0 <= i < self@.columns.len() && (#[trigger] self@.columns[i]).typ is Uuid) {
                seq!["pgcrypto"@]
            } else {
                Seq::<Seq<char>>::empty()
            },
    {
        let ghost cols = self@.columns;
        let mut has_uuid = false;
        let mut i: usize = 0;
        while i < self.columns.len()
            invariant
                i <= self.columns.len(),
                cols == self@.columns,
                cols.len() == self.columns.len(),
                has_uuid == exists|k: int| 0 <= k < i && (#[trigger] cols[k]).typ is Uuid,
            decreases self.columns.len() - i,
        {
            let c = &self.columns[i];
            assert(c@ == cols[i as int]);
            if matches!(c.typ, crate::column_spec::ColumnTypeSpec::Uuid) {
                has_uuid = true;
                assert((#[trigger] cols[i as int]).typ is Uuid);
            }
            i = i + 1;
        }
        let mut r: Vec<String> = Vec::new();
        if has_uuid {
            r.push("pgcrypto".to_owned());
            proof {
                assert(r.deep_view() =~= seq!["pgcrypto"@]);
            }
        } else {
            proof {
                assert(r.deep_view() =~= Seq::<Seq<char>>::empty());
            }
        }
        r
    }

    /// Appends the ops for the existing (self) columns: replacements for
    /// matched columns that differ, deletions for columns absent from `new`.
    fn push_column_ops(&self, new: &TableSpec, changes: &mut Vec<SchemaOp>)
        ensures
            final(changes).deep_view() == old(changes).deep_view() + column_ops(
                self@,
                new@,
                self@.columns,
            ),
    {
        let ghost ex = self@;
        let ghost tg = new@;
        let ghost base = changes.deep_view();
        let mut i: usize = 0;
        while i < self.columns.len()
            invariant
                i <= self.columns.len(),
                ex == self@,
                tg == new@,
                ex.columns.len() == self.columns.len(),
                changes.deep_view() == base + column_ops(ex, tg, ex.columns.subrange(0, i as int)),
            decreases self.columns.len() - i,
        {
            let c = &self.columns[i];
            assert(c@ == ex.columns[i as int]);
            let ghost before = changes.deep_view();
            match new.find_column(c.name.as_str()) {
                Option::Some(n) => {
                    if c.differs(n) {
                        changes.push(
                            SchemaOp::DeleteColumn {
                                table_name: self.name.clone(),
                                column_name: c.name.clone(),
                            },
                        );
                        changes.push(
                            SchemaOp::CreateColumn { table_name: new.name.clone(), column: n.clone() },
                        );
                        proof {
                            assert(changes.deep_view() =~= before + column_op_for(
                                ex,
                                tg,
                                ex.columns[i as int],
                            ));
                        }
                    } else {
                        proof {
                            assert(changes.deep_view() =~= before + column_op_for(
                                ex,
                                tg,
                                ex.columns[i as int],
                            ));
                        }
                    }
                },
                Option::None => {
                    changes.push(
                        SchemaOp::DeleteColumn {
                            table_name: self.name.clone(),
                            column_name: c.name.clone(),
                        },
                    );
                    proof {
                        assert(changes.deep_view() =~= before + column_op_for(
                            ex,
                            tg,
                            ex.columns[i as int],
                        ));
                    }
                },
            }
            proof {
                let pfx = ex.columns.subrange(0, i + 1 as int);
                assert(pfx.drop_last() =~= ex.columns.subrange(0, i as int));
                assert(pfx.last() == ex.columns[i as int]);
                assert(changes.deep_view() =~= base + column_ops(ex, tg, pfx));
            }
            i = i + 1;
        }
        proof {
            assert(ex.columns.subrange(0, ex.columns.len() as int) =~= ex.columns);
        }
    }

    /// Appends a `CreateColumn` for every `new` column absent from `self`.
    fn push_create_ops(&self, new: &TableSpec, changes: &mut Vec<SchemaOp>)
        ensures
            final(changes).deep_view() == old(changes).deep_view() + create_ops(
                self@,
                new@,
                new@.columns,
            ),
    {
        let ghost ex = self@;
        let ghost tg = new@;
        let ghost base = changes.deep_view();
        let mut i: usize = 0;
        while i < new.columns.len()
            invariant
                i <= new.columns.len(),
                ex == self@,
                tg == new@,
                tg.columns.len() == new.columns.len(),
                changes.deep_view() == base + create_ops(ex, tg, tg.columns.subrange(0, i as int)),
            decreases new.columns.len() - i,
        {
            let c = &new.columns[i];
            assert(c@ == tg.columns[i as int]);
            let ghost before = changes.deep_view();
            match self.find_column(c.name.as_str()) {
                Option::Some(_) => {},
                Option::None => {
                    changes.push(
                        SchemaOp::CreateColumn { table_name: new.name.clone(), column: c.clone() },
                    );
                    proof {
                        assert(changes.deep_view() =~= before + seq![
                            SchemaOpV::CreateColumn {
                                table_name: tg.name,
                                column: tg.columns[i as int],
                            },
                        ]);
                    }
                },
            }
            proof {
                let pfx = tg.columns.subrange(0, i + 1 as int);
                assert(pfx.drop_last() =~= tg.columns.subrange(0, i as int));
                assert(pfx.last() == tg.columns[i as int]);
                assert(changes.deep_view() =~= base + create_ops(ex, tg, pfx));
            }
            i = i + 1;
        }
        proof {
            assert(tg.columns.subrange(0, tg.columns.len() as int) =~= tg.columns);
        }
    }

    /// Appends a `RemoveUniqueConstraint` for every constraint of `self`
    /// missing from `new`.
    fn push_removal_ops(&self, new: &TableSpec, changes: &mut Vec<SchemaOp>)
        ensures
            final(changes).deep_view() == old(changes).deep_view() + removal_ops(
                new@,
                constraint_names(self@.columns),
            ),
    {
        let ghost tg = new@;
        let ghost base = changes.deep_view();
        let ex_names = self.constraint_name_list();
        let new_names = new.constraint_name_list();
        let ghost ns = ex_names.deep_view();
        let mut j: usize = 0;
        while j < ex_names.len()
            invariant
                j <= ex_names.len(),
                tg == new@,
                ns == ex_names.deep_view(),
                ns.len() == ex_names.len(),
                new_names.deep_view() == constraint_names(tg.columns),
                changes.deep_view() == base + removal_ops(tg, ns.subrange(0, j as int)),
            decreases ex_names.len() - j,
        {
            let n = &ex_names[j];
            assert(n@ == ns[j as int]);
            let ghost before = changes.deep_view();
            if !contains_str(&new_names, n.as_str()) {
                changes.push(
                    SchemaOp::RemoveUniqueConstraint {
                        table_name: new.name.clone(),
                        constraint: n.clone(),
                    },
                );
                proof {
                    assert(changes.deep_view() =~= before + seq![
                        SchemaOpV::RemoveUniqueConstraint {
                            table_name: tg.name,
                            constraint: ns[j as int],
                        },
                    ]);
                }
            }
            proof {
                let pfx = ns.subrange(0, j + 1 as int);
                assert(pfx.drop_last() =~= ns.subrange(0, j as int));
                assert(pfx.last() == ns[j as int]);
                assert(changes.deep_view() =~= base + removal_ops(tg, pfx));
            }
            j = j + 1;
        }
        proof {
            assert(ns.subrange(0, ns.len() as int) =~= ns);
        }
    }

    /// Appends, for every constraint of `new`: a creation when it is absent
    /// from `self`, or a removal followed by a creation when its column set
    /// changed.
    fn push_change_ops(&self, new: &TableSpec, changes: &mut Vec<SchemaOp>)
        ensures
            final(changes).deep_view() == old(changes).deep_view() + change_ops(
                self@,
                new@,
                constraint_names(new@.columns),
            ),
    {
        let ghost ex = self@;
        let ghost tg = new@;
        let ghost base = changes.deep_view();
        let ex_names = self.constraint_name_list();
        let new_names = new.constraint_name_list();
        let ghost ns = new_names.deep_view();
        let mut j: usize = 0;
        while j < new_names.len()
            invariant
                j <= new_names.len(),
                ex == self@,
                tg == new@,
                ns == new_names.deep_view(),
                ns.len() == new_names.len(),
                ex_names.deep_view() == constraint_names(ex.columns),
                changes.deep_view() == base + change_ops(ex, tg, ns.subrange(0, j as int)),
            decreases new_names.len() - j,
        {
            let n = &new_names[j];
            assert(n@ == ns[j as int]);
            let ghost before = changes.deep_view();
            let tg_cols = new.constraint_column_list(n.as_str());
            if contains_str(&ex_names, n.as_str()) {
                let ex_cols = self.constraint_column_list(n.as_str());
                if !crate::text::names_same_elements(&ex_cols, &tg_cols) {
                    changes.push(
                        SchemaOp::RemoveUniqueConstraint {
                            table_name: new.name.clone(),
                            constraint: n.clone(),
                        },
                    );
                    changes.push(
                        SchemaOp::CreateUniqueConstraint {
                            table_name: new.name.clone(),
                            constraint_name: n.clone(),
                            columns: sorted_names(&tg_cols),
                        },
                    );
                    proof {
                        assert(changes.deep_view() =~= before + seq![
                            SchemaOpV::RemoveUniqueConstraint {
                                table_name: tg.name,
                                constraint: ns[j as int],
                            },
                            SchemaOpV::CreateUniqueConstraint {
                                table_name: tg.name,
                                constraint_name: ns[j as int],
                                columns: sort_names(
                                    constraint_columns(tg.columns, ns[j as int]),
                                ),
                            },
                        ]);
                    }
                }
            } else {
                changes.push(
                    SchemaOp::CreateUniqueConstraint {
                        table_name: new.name.clone(),
                        constraint_name: n.clone(),
                        columns: sorted_names(&tg_cols),
                    },
                );
                proof {
                    assert(changes.deep_view() =~= before + seq![
                        SchemaOpV::CreateUniqueConstraint {
                            table_name: tg.name,
                            constraint_name: ns[j as int],
                            columns: sort_names(constraint_columns(tg.columns, ns[j as int])),
                        },
                    ]);
                }
            }
            proof {
                let pfx = ns.subrange(0, j + 1 as int);
                assert(pfx.drop_last() =~= ns.subrange(0, j as int));
                assert(pfx.last() == ns[j as int]);
                assert(changes.deep_view() =~= base + change_ops(ex, tg, pfx));
            }
            j = j + 1;
        }
        proof {
            assert(ns.subrange(0, ns.len() as int) =~= ns);
        }
    }

    /// The ordered schema changes that turn this snapshot of the table into
    /// `new`: column replacements and deletions over the existing columns in
    /// declaration order, then creations for new columns, then constraint
    /// removals, then constraint creations and replacements.
    pub fn diff(&self, new: &TableSpec) -> (r: Vec<SchemaOp>)
        ensures
            r.deep_view() == spec_diff(self@, new@),
    {
        let mut changes: Vec<SchemaOp> = Vec::new();
        proof {
            assert(changes.deep_view() =~= Seq::<SchemaOpV>::empty());
        }
        self.push_column_ops(new, &mut changes);
        self.push_create_ops(new, &mut changes);
        self.push_removal_ops(new, &mut changes);
        self.push_change_ops(new, &mut changes);
        proof {
            assert(changes.deep_view() =~= spec_diff(self@, new@));
        }
        changes
    }

    /// The `CREATE TABLE` statement defining all columns, followed by one
    /// post statement per named unique constraint. Constraints are never
    /// inlined into the column list, keeping column and constraint lifecycles
    /// independent.
    pub fn creation_sql(&self) -> (r: SchemaStatement)
        ensures
            r.statement@ == creation_statement(self@),
            r.pre_statements.deep_view() == Seq::<Seq<char>>::empty(),
            r.post_statements.deep_view() == creation_posts(self@),
    {
        let ghost cols = self@.columns;
        let mut body = String::new();
        let mut j: usize = 0;
        while j < self.columns.len()
            invariant
                j <= self.columns.len(),
                cols == self@.columns,
                cols.len() == self.columns.len(),
                body@ == column_lines(cols.subrange(0, j as int)),
            decreases self.columns.len() - j,
        {
            if j > 0 {
                body.append(",\n\t");
            }
            let line = self.columns[j].to_sql();
            body.append(line.as_str());
            proof {
                let pfx = cols.subrange(0, j + 1 as int);
                assert(pfx.drop_last() =~= cols.subrange(0, j as int));
                assert(pfx.last() == cols[j as int]);
                if j == 0 {
                    assert(body@ =~= column_lines(pfx));
                }
            }
            j = j + 1;
        }
        proof {
            assert(cols.subrange(0, cols.len() as int) =~= cols);
        }
        let mut statement = String::new();
        statement.append("CREATE TABLE ");
        statement.append("\"");
        statement.append(self.name.as_str());
        statement.append("\"");
        statement.append(" (\n\t");
        statement.append(body.as_str());
        statement.append("\n);");
        proof {
            assert(statement@ =~= creation_statement(self@));
        }
        let names = self.constraint_name_list();
        let ghost ns = names.deep_view();
        let mut post_statements: Vec<String> = Vec::new();
        let mut k: usize = 0;
        while k < names.len()
            invariant
                k <= names.len(),
                ns == names.deep_view(),
                ns.len() == names.len(),
                ns == constraint_names(self@.columns),
                post_statements.deep_view() == creation_posts(self@).subrange(0, k as int),
            decreases names.len() - k,
        {
            let n = &names[k];
            assert(n@ == ns[k as int]);
            let columns = self.constraint_column_list(n.as_str());
            let list = sorted_comma_list(&columns);
            let mut s = String::new();
            s.append("ALTER TABLE ");
            s.append("\"");
            s.append(self.name.as_str());
            s.append("\"");
            s.append(" ADD CONSTRAINT ");
            s.append("\"");
            s.append(n.as_str());
            s.append("\"");
            s.append(" UNIQUE (");
            s.append(list.as_str());
            s.append(");");
            proof {
                assert(s@ =~= add_constraint_statement(
                    self@.name,
                    ns[k as int],
                    constraint_columns(self@.columns, ns[k as int]),
                ));
            }
            let ghost before = post_statements.deep_view();
            let ghost sv = s@;
            post_statements.push(s);
            proof {
                assert(post_statements.deep_view() =~= before.push(sv));
                assert(creation_posts(self@)[k as int] == add_constraint_statement(
                    self@.name,
                    ns[k as int],
                    constraint_columns(self@.columns, ns[k as int]),
                ));
                assert(post_statements.deep_view() =~= creation_posts(self@).subrange(
                    0,
                    k + 1 as int,
                ));
            }
            k = k + 1;
        }
        proof {
            assert(creation_posts(self@).subrange(0, creation_posts(self@).len() as int)
                =~= creation_posts(self@));
        }
        let r = SchemaStatement { statement, pre_statements: Vec::new(), post_statements };
        proof {
            assert(r.pre_statements.deep_view() =~= Seq::<Seq<char>>::empty());
        }
        r
    }

    /// The statements dropping the table: one pre statement per named unique
    /// constraint, then a cascading `DROP TABLE`.
    pub fn deletion_sql(&self) -> (r: SchemaStatement)
        ensures
            r.statement@ == deletion_statement(self@),
            r.pre_statements.deep_view() == deletion_pres(self@),
            r.post_statements.deep_view() == Seq::<Seq<char>>::empty(),
    {
        let names = self.constraint_name_list();
        let ghost ns = names.deep_view();
        let mut pre_statements: Vec<String> = Vec::new();
        let mut k: usize = 0;
        while k < names.len()
            invariant
                k <= names.len(),
                ns == names.deep_view(),
                ns.len() == names.len(),
                ns == constraint_names(self@.columns),
                pre_statements.deep_view() == deletion_pres(self@).subrange(0, k as int),
            decreases names.len() - k,
        {
            let n = &names[k];
            assert(n@ == ns[k as int]);
            let mut s = String::new();
            s.append("ALTER TABLE ");
            s.append("\"");
            s.append(self.name.as_str());
            s.append("\"");
            s.append(" DROP CONSTRAINT ");
            s.append("\"");
            s.append(n.as_str());
            s.append("\"");
            s.append(";");
            proof {
                assert(s@ =~= drop_constraint_statement(self@.name, ns[k as int]));
            }
            let ghost before = pre_statements.deep_view();
            let ghost sv = s@;
            pre_statements.push(s);
            proof {
                assert(pre_statements.deep_view() =~= before.push(sv));
                assert(deletion_pres(self@)[k as int] == drop_constraint_statement(
                    self@.name,
                    ns[k as int],
                ));
                assert(pre_statements.deep_view() =~= deletion_pres(self@).subrange(
                    0,
                    k + 1 as int,
                ));
            }
            k = k + 1;
        }
        proof {
            assert(deletion_pres(self@).subrange(0, deletion_pres(self@).len() as int)
                =~= deletion_pres(self@));
        }
        let mut statement = String::new();
        statement.append("DROP TABLE ");
        statement.append("\"");
        statement.append(self.name.as_str());
        statement.append("\"");
        statement.append(" CASCADE;");
        proof {
            assert(statement@ =~= deletion_statement(self@));
        }
        let r = SchemaStatement { statement, pre_statements, post_statements: Vec::new() };
        proof {
            assert(r.post_statements.deep_view() =~= Seq::<Seq<char>>::empty());
        }
        r
    }
}

} // verus!
