//! A schema snapshot: the tables of one database, the diff between two
//! snapshots, and the assembly of a snapshot from introspected metadata.
//!
//! Snapshots are built once per compilation or introspection pass and are
//! read-only afterwards.

use vstd::prelude::*;

use crate::op::{SchemaOp, SchemaOpV};
use crate::table_spec::{spec_diff, table_wf, TableSpec, TableSpecV};
use crate::text::str_eq;

verus! {

/// A snapshot of a database schema: its tables.
#[derive(Debug, PartialEq)]
pub struct SchemaSpec {
    pub tables: Vec<TableSpec>,
}

/// Mathematical model of a `SchemaSpec`.
pub struct SchemaSpecV {
    pub tables: Seq<TableSpecV>,
}

impl View for SchemaSpec {
    type V = SchemaSpecV;

    open spec fn view(&self) -> SchemaSpecV {
        SchemaSpecV { tables: self.tables.deep_view() }
    }
}

/// Table names are unique within a schema, and each table is well formed.
pub open spec fn schema_wf(s: SchemaSpecV) -> bool {
    &&& forall|i: int, j: int|
        0 <= i < j < s.tables.len() ==> (#[trigger] s.tables[i]).name != (
        #[trigger] s.tables[j]).name
    &&& forall|i: int| 0 <= i < s.tables.len() ==> table_wf(#[trigger] s.tables[i])
}

/// The first table of the given name, if any.
pub open spec fn find_table(tables: Seq<TableSpecV>, name: Seq<char>) -> Option<TableSpecV>
    decreases tables.len(),
{
    if tables.len() == 0 {
        Option::None
    } else if tables[0].name == name {
        Option::Some(tables[0])
    } else {
        find_table(tables.skip(1), name)
    }
}

/// Ops for the existing tables, in order: a matched table contributes its
/// table-level diff; an unmatched one is dropped.
pub open spec fn schema_table_ops(
    ex: Seq<TableSpecV>,
    tg: Seq<TableSpecV>,
    tables: Seq<TableSpecV>,
) -> Seq<SchemaOpV>
    decreases tables.len(),
{
    if tables.len() == 0 {
        Seq::empty()
    } else {
        schema_table_ops(ex, tg, tables.drop_last()) + (match find_table(
            tg,
            tables.last().name,
        ) {
            Option::Some(n) => spec_diff(tables.last(), n),
            Option::None => seq![SchemaOpV::DeleteTable { table: tables.last() }],
        })
    }
}

/// A `CreateTable` for every target table absent from the existing schema,
/// in order.
pub open spec fn schema_create_ops(
    ex: Seq<TableSpecV>,
    tables: Seq<TableSpecV>,
) -> Seq<SchemaOpV>
    decreases tables.len(),
{
    if tables.len() == 0 {
        Seq::empty()
    } else {
        schema_create_ops(ex, tables.drop_last()) + (if find_table(
            ex,
            tables.last().name,
        ) is None {
            seq![SchemaOpV::CreateTable { table: tables.last() }]
        } else {
            Seq::empty()
        })
    }
}

/// The full diff of two schema snapshots: per-table diffs and deletions over
/// the existing tables, then creations for new tables.
pub open spec fn spec_schema_diff(ex: SchemaSpecV, tg: SchemaSpecV) -> Seq<SchemaOpV> {
    schema_table_ops(ex.tables, tg.tables, ex.tables) + schema_create_ops(ex.tables, tg.tables)
}

proof fn lemma_find_table_self(tables: Seq<TableSpecV>, k: int)
    requires
        0 <= k < tables.len(),
        forall|i: int, j: int|
            0 <= i < j < tables.len() ==> (#[trigger] tables[i]).name != (
            #[trigger] tables[j]).name,
    ensures
        find_table(tables, tables[k].name) == Option::Some(tables[k]),
    decreases tables.len(),
{
    if k == 0 {
    } else {
        assert(tables[0].name != tables[k].name);
        let t = tables.skip(1);
        assert forall|i: int, j: int| 0 <= i < j < t.len() implies (#[trigger] t[i]).name != (
        #[trigger] t[j]).name by {
            assert(t[i] == tables[i + 1]);
            assert(t[j] == tables[j + 1]);
        }
        lemma_find_table_self(t, k - 1);
        assert(t[k - 1] == tables[k]);
    }
}

proof fn lemma_schema_table_ops_identity(s: SchemaSpecV, tables: Seq<TableSpecV>)
    requires
        forall|k: int|
            0 <= k < tables.len() ==> find_table(s.tables, (#[trigger] tables[k]).name)
                == Option::Some(tables[k]),
        forall|k: int| 0 <= k < tables.len() ==> table_wf(#[trigger] tables[k]),
    ensures
        schema_table_ops(s.tables, s.tables, tables) == Seq::<SchemaOpV>::empty(),
    decreases tables.len(),
{
    if tables.len() == 0 {
    } else {
        let pfx = tables.drop_last();
        assert(forall|k: int| 0 <= k < pfx.len() ==> #[trigger] pfx[k] == tables[k]);
        lemma_schema_table_ops_identity(s, pfx);
        crate::table_spec::lemma_diff_identity(tables.last());
        assert(schema_table_ops(s.tables, s.tables, tables) =~= Seq::<SchemaOpV>::empty());
    }
}

proof fn lemma_schema_create_ops_identity(s: SchemaSpecV, tables: Seq<TableSpecV>)
    requires
        forall|k: int|
            0 <= k < tables.len() ==> find_table(s.tables, (#[trigger] tables[k]).name) is Some,
    ensures
        schema_create_ops(s.tables, tables) == Seq::<SchemaOpV>::empty(),
    decreases tables.len(),
{
    if tables.len() == 0 {
    } else {
        let pfx = tables.drop_last();
        assert(forall|k: int| 0 <= k < pfx.len() ==> #[trigger] pfx[k] == tables[k]);
        lemma_schema_create_ops_identity(s, pfx);
        assert(schema_create_ops(s.tables, tables) =~= Seq::<SchemaOpV>::empty());
    }
}

/// Diffing two identical schema snapshots yields no schema changes: the
/// diff is idempotent on a well-formed snapshot.
pub proof fn lemma_schema_diff_identity(s: SchemaSpecV)
    requires
        schema_wf(s),
    ensures
        spec_schema_diff(s, s) == Seq::<SchemaOpV>::empty(),
{
    assert forall|k: int| 0 <= k < s.tables.len() implies find_table(
        s.tables,
        (#[trigger] s.tables[k]).name,
    ) == Option::Some(s.tables[k]) by {
        lemma_find_table_self(s.tables, k);
    }
    lemma_schema_table_ops_identity(s, s.tables);
    lemma_schema_create_ops_identity(s, s.tables);
    assert(spec_schema_diff(s, s) =~= Seq::<SchemaOpV>::empty());
}

impl SchemaSpec {
    /// The first table of the given name, if any.
    fn find_table(&self, name: &str) -> (r: Option<&TableSpec>)
        ensures
            match r {
                Option::Some(t) => find_table(self@.tables, name@) == Option::Some(t@),
                Option::None => find_table(self@.tables, name@) is None,
            },
    {
        let ghost ts = self@.tables;
        proof {
            assert(ts.skip(0) =~= ts);
        }
        let mut i: usize = 0;
        while i < self.tables.len()
            invariant
                i <= self.tables.len(),
                ts == self@.tables,
                ts.len() == self.tables.len(),
                find_table(ts, name@) == find_table(ts.skip(i as int), name@),
            decreases self.tables.len() - i,
        {
            let t = &self.tables[i];
            assert(t@ == ts[i as int]);
            assert(ts.skip(i as int)[0] == ts[i as int]);
            if str_eq(t.name.as_str(), name) {
                return Some(t);
            }
            proof {
                assert(ts.skip(i as int).skip(1) =~= ts.skip(i + 1 as int));
            }
            i = i + 1;
        }
        proof {
            assert(ts.skip(ts.len() as int) =~= Seq::<TableSpecV>::empty());
        }
        None
    }

    /// The ordered schema changes that turn this snapshot into `new`:
    /// per-table diffs and table deletions over the existing tables, then
    /// creations for new tables.
    pub fn diff(&self, new: &SchemaSpec) -> (r: Vec<SchemaOp>)
        ensures
            r.deep_view() == spec_schema_diff(self@, new@),
    {
        let ghost ex = self@.tables;
        let ghost tg = new@.tables;
        let mut changes: Vec<SchemaOp> = Vec::new();
        proof {
            assert(changes.deep_view() =~= Seq::<SchemaOpV>::empty());
            assert(ex.subrange(0, 0) =~= Seq::<TableSpecV>::empty());
        }
        let mut i: usize = 0;
        while i < self.tables.len()
            invariant
                i <= self.tables.len(),
                ex == self@.tables,
                tg == new@.tables,
                ex.len() == self.tables.len(),
                changes.deep_view() == schema_table_ops(ex, tg, ex.subrange(0, i as int)),
            decreases self.tables.len() - i,
        {
            let t = &self.tables[i];
            assert(t@ == ex[i as int]);
            let ghost before = changes.deep_view();
            match new.find_table(t.name.as_str()) {
                Option::Some(n) => {
                    let mut ops = t.diff(n);
                    let ghost opsv = ops.deep_view();
                    changes.append(&mut ops);
                    proof {
                        assert(changes.deep_view() =~= before + opsv);
                    }
                },
                Option::None => {
                    changes.push(SchemaOp::DeleteTable { table: t.clone() });
                    proof {
                        assert(changes.deep_view() =~= before + seq![
                            SchemaOpV::DeleteTable { table: ex[i as int] },
                        ]);
                    }
                },
            }
            proof {
                let pfx = ex.subrange(0, i + 1 as int);
                assert(pfx.drop_last() =~= ex.subrange(0, i as int));
                assert(pfx.last() == ex[i as int]);
                assert(changes.deep_view() =~= schema_table_ops(ex, tg, pfx));
            }
            i = i + 1;
        }
        proof {
            assert(ex.subrange(0, ex.len() as int) =~= ex);
            assert(tg.subrange(0, 0) =~= Seq::<TableSpecV>::empty());
        }
        let ghost base = changes.deep_view();
        let mut j: usize = 0;
        while j < new.tables.len()
            invariant
                j <= new.tables.len(),
                ex == self@.tables,
                tg == new@.tables,
                tg.len() == new.tables.len(),
                changes.deep_view() == base + schema_create_ops(ex, tg.subrange(0, j as int)),
            decreases new.tables.len() - j,
        {
            let t = &new.tables[j];
            assert(t@ == tg[j as int]);
            let ghost before = changes.deep_view();
            match self.find_table(t.name.as_str()) {
                Option::Some(_) => {},
                Option::None => {
                    changes.push(SchemaOp::CreateTable { table: t.clone() });
                    proof {
                        assert(changes.deep_view() =~= before + seq![
                            SchemaOpV::CreateTable { table: tg[j as int] },
                        ]);
                    }
                },
            }
            proof {
                let pfx = tg.subrange(0, j + 1 as int);
                assert(pfx.drop_last() =~= tg.subrange(0, j as int));
                assert(pfx.last() == tg[j as int]);
                assert(changes.deep_view() =~= base + schema_create_ops(ex, pfx));
            }
            j = j + 1;
        }
        proof {
            assert(tg.subrange(0, tg.len() as int) =~= tg);
            assert(changes.deep_view() =~= spec_schema_diff(self@, new@));
        }
        changes
    }
}

} // verus!
