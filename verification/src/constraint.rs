//! Constraint metadata discovered by introspecting a live database, and the
//! assembly of a table snapshot from it.
//!
//! The queries themselves live outside this crate; they hand over plain
//! values. Constraint discovery must complete before column types are
//! resolved, because a foreign-key column takes its type from the referenced
//! table's primary-key column.

use vstd::prelude::*;

use crate::column_spec::{ColumnSpec, ColumnSpecV, ColumnTypeSpec, ColumnTypeSpecV};
use crate::issue::WithIssues;
use crate::table_spec::TableSpec;
use crate::text::{contains_str, str_eq};

verus! {

/// One foreign-key constraint: the column of this table it constrains, the
/// referenced table, that table's primary-key column, and the introspected
/// type of that column.
#[derive(Debug, PartialEq)]
pub struct ForeignConstraint {
    pub self_column: String,
    pub foreign_table: String,
    pub foreign_pk_column: String,
    pub foreign_pk_type: ColumnTypeSpec,
}

/// Mathematical model of a `ForeignConstraint`.
pub struct ForeignConstraintV {
    pub self_column: Seq<char>,
    pub foreign_table: Seq<char>,
    pub foreign_pk_column: Seq<char>,
    pub foreign_pk_type: ColumnTypeSpecV,
}

impl View for ForeignConstraint {
    type V = ForeignConstraintV;

    open spec fn view(&self) -> ForeignConstraintV {
        ForeignConstraintV {
            self_column: self.self_column@,
            foreign_table: self.foreign_table@,
            foreign_pk_column: self.foreign_pk_column@,
            foreign_pk_type: self.foreign_pk_type@,
        }
    }
}

impl DeepView for ForeignConstraint {
    type V = ForeignConstraintV;

    open spec fn deep_view(&self) -> ForeignConstraintV {
        self.view()
    }
}

/// One named unique constraint: its name and the columns it spans.
#[derive(Debug, PartialEq)]
pub struct UniqueConstraint {
    pub constraint_name: String,
    pub columns: Vec<String>,
}

/// Mathematical model of a `UniqueConstraint`.
pub struct UniqueConstraintV {
    pub constraint_name: Seq<char>,
    pub columns: Seq<Seq<char>>,
}

impl View for UniqueConstraint {
    type V = UniqueConstraintV;

    open spec fn view(&self) -> UniqueConstraintV {
        UniqueConstraintV {
            constraint_name: self.constraint_name@,
            columns: self.columns.deep_view(),
        }
    }
}

impl DeepView for UniqueConstraint {
    type V = UniqueConstraintV;

    open spec fn deep_view(&self) -> UniqueConstraintV {
        self.view()
    }
}

/// The constraints discovered for one table.
#[derive(Debug, PartialEq)]
pub struct Constraints {
    pub primary_key_columns: Vec<String>,
    pub foreign_constraints: Vec<ForeignConstraint>,
    pub uniques: Vec<UniqueConstraint>,
}

/// Mathematical model of a `Constraints`.
pub struct ConstraintsV {
    pub primary_key_columns: Seq<Seq<char>>,
    pub foreign_constraints: Seq<ForeignConstraintV>,
    pub uniques: Seq<UniqueConstraintV>,
}

impl View for Constraints {
    type V = ConstraintsV;

    open spec fn view(&self) -> ConstraintsV {
        ConstraintsV {
            primary_key_columns: self.primary_key_columns.deep_view(),
            foreign_constraints: self.foreign_constraints.deep_view(),
            uniques: self.uniques.deep_view(),
        }
    }
}

/// One column as introspection reports it, before constraint resolution.
#[derive(Debug, PartialEq)]
pub struct IntrospectedColumn {
    pub name: String,
    pub typ: ColumnTypeSpec,
    pub is_nullable: bool,
    pub is_auto_increment: bool,
}

/// Mathematical model of an `IntrospectedColumn`.
pub struct IntrospectedColumnV {
    pub name: Seq<char>,
    pub typ: ColumnTypeSpecV,
    pub is_nullable: bool,
    pub is_auto_increment: bool,
}

impl View for IntrospectedColumn {
    type V = IntrospectedColumnV;

    open spec fn view(&self) -> IntrospectedColumnV {
        IntrospectedColumnV {
            name: self.name@,
            typ: self.typ@,
            is_nullable: self.is_nullable,
            is_auto_increment: self.is_auto_increment,
        }
    }
}

impl DeepView for IntrospectedColumn {
    type V = IntrospectedColumnV;

    open spec fn deep_view(&self) -> IntrospectedColumnV {
        self.view()
    }
}

/// The first foreign constraint on the named column, if any.
pub open spec fn find_foreign(fcs: Seq<ForeignConstraintV>, col: Seq<char>) -> Option<
    ForeignConstraintV,
>
    decreases fcs.len(),
{
    if fcs.len() == 0 {
        Option::None
    } else if fcs[0].self_column == col {
        Option::Some(fcs[0])
    } else {
        find_foreign(fcs.skip(1), col)
    }
}

/// The names, in discovery order, of the unique constraints spanning the
/// named column.
pub open spec fn uniques_containing(us: Seq<UniqueConstraintV>, col: Seq<char>) -> Seq<Seq<char>>
    decreases us.len(),
{
    if us.len() == 0 {
        Seq::empty()
    } else {
        let prefix = uniques_containing(us.drop_last(), col);
        if us.last().columns.contains(col) {
            prefix.push(us.last().constraint_name)
        } else {
            prefix
        }
    }
}

/// The column specification an introspected column resolves to: a column
/// under a foreign-key constraint takes a reference type built from the
/// constraint; the primary-key flag and the unique-constraint names come
/// from the discovered constraints.
pub open spec fn resolved_column(c: IntrospectedColumnV, cons: ConstraintsV) -> ColumnSpecV {
    ColumnSpecV {
        name: c.name,
        typ: match find_foreign(cons.foreign_constraints, c.name) {
            Option::Some(fc) => ColumnTypeSpecV::ColumnReference {
                foreign_table_name: fc.foreign_table,
                foreign_pk_column_name: fc.foreign_pk_column,
                foreign_pk_type: Box::new(fc.foreign_pk_type),
            },
            Option::None => c.typ,
        },
        is_pk: cons.primary_key_columns.contains(c.name),
        is_auto_increment: c.is_auto_increment,
        is_nullable: c.is_nullable,
        unique_constraints: uniques_containing(cons.uniques, c.name),
    }
}

/// The columns of the assembled table, in introspection order.
pub open spec fn resolved_columns(cols: Seq<IntrospectedColumnV>, cons: ConstraintsV) -> Seq<
    ColumnSpecV,
> {
    Seq::new(cols.len(), |i: int| resolved_column(cols[i], cons))
}

/// The first foreign constraint on the named column, if any.
fn find_foreign_constraint<'a>(fcs: &'a Vec<ForeignConstraint>, name: &str) -> (r: Option<
    &'a ForeignConstraint,
>)
    ensures
        match r {
            Option::Some(fc) => find_foreign(fcs.deep_view(), name@) == Option::Some(fc@),
            Option::None => find_foreign(fcs.deep_view(), name@) is None,
        },
{
    let ghost fs = fcs.deep_view();
    proof {
        assert(fs.skip(0) =~= fs);
    }
    let mut i: usize = 0;
    while i < fcs.len()
        invariant
            i <= fcs.len(),
            fs == fcs.deep_view(),
            fs.len() == fcs.len(),
            find_foreign(fs, name@) == find_foreign(fs.skip(i as int), name@),
        decreases fcs.len() - i,
    {
        let fc = &fcs[i];
        assert(fc@ == fs[i as int]);
        assert(fs.skip(i as int)[0] == fs[i as int]);
        if str_eq(fc.self_column.as_str(), name) {
            return Some(fc);
        }
        proof {
            assert(fs.skip(i as int).skip(1) =~= fs.skip(i + 1 as int));
        }
        i = i + 1;
    }
    proof {
        assert(fs.skip(fs.len() as int) =~= Seq::<ForeignConstraintV>::empty());
    }
    None
}

/// The names of the unique constraints spanning the named column.
fn unique_names_for(us: &Vec<UniqueConstraint>, name: &str) -> (r: Vec<String>)
    ensures
        r.deep_view() == uniques_containing(us.deep_view(), name@),
{
    let ghost usv = us.deep_view();
    let mut r: Vec<String> = Vec::new();
    proof {
        assert(usv.subrange(0, 0) =~= Seq::<UniqueConstraintV>::empty());
        assert(r.deep_view() =~= Seq::<Seq<char>>::empty());
    }
    let mut i: usize = 0;
    while i < us.len()
        invariant
            i <= us.len(),
            usv == us.deep_view(),
            usv.len() == us.len(),
            r.deep_view() == uniques_containing(usv.subrange(0, i as int), name@),
        decreases us.len() - i,
    {
        let u = &us[i];
        assert(u@ == usv[i as int]);
        let ghost before = r.deep_view();
        if contains_str(&u.columns, name) {
            r.push(u.constraint_name.clone());
            proof {
                assert(r.deep_view() =~= before.push(usv[i as int].constraint_name));
            }
        }
        proof {
            let pfx = usv.subrange(0, i + 1 as int);
            assert(pfx.drop_last() =~= usv.subrange(0, i as int));
            assert(pfx.last() == usv[i as int]);
            assert(r.deep_view() =~= uniques_containing(pfx, name@));
        }
        i = i + 1;
    }
    proof {
        assert(usv.subrange(0, usv.len() as int) =~= usv);
    }
    r
}

impl TableSpec {
    /// Assembles a table snapshot from introspected columns and constraints.
    /// Column order is preserved; a foreign-key column resolves to a
    /// reference type carrying the referenced table's key type.
    pub fn from_introspection(
        table_name: String,
        columns: &Vec<IntrospectedColumn>,
        constraints: &Constraints,
    ) -> (r: WithIssues<TableSpec>)
        ensures
            r.value@.name == table_name@,
            r.value@.columns == resolved_columns(columns.deep_view(), constraints@),
            r.issues@.len() == 0,
    {
        let ghost cs = columns.deep_view();
        let ghost consv = constraints@;
        let mut cols: Vec<ColumnSpec> = Vec::new();
        proof {
            assert(cols.deep_view() =~= resolved_columns(cs, consv).subrange(0, 0));
        }
        let mut i: usize = 0;
        while i < columns.len()
            invariant
                i <= columns.len(),
                cs == columns.deep_view(),
                cs.len() == columns.len(),
                consv == constraints@,
                cols.deep_view() == resolved_columns(cs, consv).subrange(0, i as int),
            decreases columns.len() - i,
        {
            let c = &columns[i];
            assert(c@ == cs[i as int]);
            let typ = match find_foreign_constraint(&constraints.foreign_constraints, c.name.as_str()) {
                Option::Some(fc) => ColumnTypeSpec::ColumnReference {
                    foreign_table_name: fc.foreign_table.clone(),
                    foreign_pk_column_name: fc.foreign_pk_column.clone(),
                    foreign_pk_type: Box::new(fc.foreign_pk_type.clone()),
                },
                Option::None => c.typ.clone(),
            };
            let is_pk = contains_str(&constraints.primary_key_columns, c.name.as_str());
            let unique_constraints = unique_names_for(&constraints.uniques, c.name.as_str());
            let ghost before = cols.deep_view();
            cols.push(
                ColumnSpec {
                    name: c.name.clone(),
                    typ,
                    is_pk,
                    is_auto_increment: c.is_auto_increment,
                    is_nullable: c.is_nullable,
                    unique_constraints,
                },
            );
            proof {
                assert(cols.deep_view() =~= before.push(resolved_column(cs[i as int], consv)));
                assert(resolved_columns(cs, consv)[i as int] == resolved_column(
                    cs[i as int],
                    consv,
                ));
                assert(cols.deep_view() =~= resolved_columns(cs, consv).subrange(
                    0,
                    i + 1 as int,
                ));
            }
            i = i + 1;
        }
        proof {
            let rc = resolved_columns(cs, consv);
            assert(rc.subrange(0, rc.len() as int) =~= rc);
        }
        WithIssues { value: TableSpec { name: table_name, columns: cols }, issues: Vec::new() }
    }
}

} // verus!
