//! Specification of one column of a physical table: its logical type,
//! nullability, primary-key and auto-increment flags, and the named unique
//! constraints it participates in.

use vstd::prelude::*;

use crate::text::quoted;

verus! {

/// The logical type of a column. A `ColumnReference` column holds a value of
/// the referenced table's primary-key column type and encodes a many-to-one
/// relationship.
#[derive(Debug, PartialEq)]
pub enum ColumnTypeSpec {
    Int,
    Text,
    Boolean,
    Uuid,
    ColumnReference {
        foreign_table_name: String,
        foreign_pk_column_name: String,
        foreign_pk_type: Box<ColumnTypeSpec>,
    },
}

/// Mathematical model of a `ColumnTypeSpec`.
pub enum ColumnTypeSpecV {
    Int,
    Text,
    Boolean,
    Uuid,
    ColumnReference {
        foreign_table_name: Seq<char>,
        foreign_pk_column_name: Seq<char>,
        foreign_pk_type: Box<ColumnTypeSpecV>,
    },
}

pub open spec fn column_type_view(t: ColumnTypeSpec) -> ColumnTypeSpecV
    decreases t,
{
    match t {
        ColumnTypeSpec::Int => ColumnTypeSpecV::Int,
        ColumnTypeSpec::Text => ColumnTypeSpecV::Text,
        ColumnTypeSpec::Boolean => ColumnTypeSpecV::Boolean,
        ColumnTypeSpec::Uuid => ColumnTypeSpecV::Uuid,
        ColumnTypeSpec::ColumnReference { foreign_table_name, foreign_pk_column_name, foreign_pk_type } => {
            ColumnTypeSpecV::ColumnReference {
                foreign_table_name: foreign_table_name@,
                foreign_pk_column_name: foreign_pk_column_name@,
                foreign_pk_type: Box::new(column_type_view(*foreign_pk_type)),
            }
        },
    }
}

impl View for ColumnTypeSpec {
    type V = ColumnTypeSpecV;

    open spec fn view(&self) -> ColumnTypeSpecV {
        column_type_view(*self)
    }
}

/// Specification of one column.
#[derive(Debug, PartialEq)]
pub struct ColumnSpec {
    pub name: String,
    pub typ: ColumnTypeSpec,
    pub is_pk: bool,
    pub is_auto_increment: bool,
    pub is_nullable: bool,
    pub unique_constraints: Vec<String>,
}

/// Mathematical model of a `ColumnSpec`.
pub struct ColumnSpecV {
    pub name: Seq<char>,
    pub typ: ColumnTypeSpecV,
    pub is_pk: bool,
    pub is_auto_increment: bool,
    pub is_nullable: bool,
    pub unique_constraints: Seq<Seq<char>>,
}

impl View for ColumnSpec {
    type V = ColumnSpecV;

    open spec fn view(&self) -> ColumnSpecV {
        ColumnSpecV {
            name: self.name@,
            typ: self.typ@,
            is_pk: self.is_pk,
            is_auto_increment: self.is_auto_increment,
            is_nullable: self.is_nullable,
            unique_constraints: self.unique_constraints.deep_view(),
        }
    }
}

impl DeepView for ColumnSpec {
    type V = ColumnSpecV;

    open spec fn deep_view(&self) -> ColumnSpecV {
        self.view()
    }
}

impl Clone for ColumnTypeSpec {
    fn clone(&self) -> (res: Self)
        ensures
            res@ == self@,
        decreases *self,
    {
        match self {
            ColumnTypeSpec::Int => ColumnTypeSpec::Int,
            ColumnTypeSpec::Text => ColumnTypeSpec::Text,
            ColumnTypeSpec::Boolean => ColumnTypeSpec::Boolean,
            ColumnTypeSpec::Uuid => ColumnTypeSpec::Uuid,
            ColumnTypeSpec::ColumnReference {
                foreign_table_name,
                foreign_pk_column_name,
                foreign_pk_type,
            } => ColumnTypeSpec::ColumnReference {
                foreign_table_name: foreign_table_name.clone(),
                foreign_pk_column_name: foreign_pk_column_name.clone(),
                foreign_pk_type: Box::new((**foreign_pk_type).clone()),
            },
        }
    }
}

impl Clone for ColumnSpec {
    fn clone(&self) -> (res: Self)
        ensures
            res@ == self@,
    {
        let mut unique_constraints: Vec<String> = Vec::new();
        let mut i: usize = 0;
        while i < self.unique_constraints.len()
            invariant
                i <= self.unique_constraints.len(),
                unique_constraints.deep_view() == self.unique_constraints.deep_view().subrange(
                    0,
                    i as int,
                ),
            decreases self.unique_constraints.len() - i,
        {
            let ghost before = unique_constraints.deep_view();
            unique_constraints.push(self.unique_constraints[i].clone());
            proof {
                assert(unique_constraints.deep_view() =~= before.push(
                    self.unique_constraints.deep_view()[i as int],
                ));
                assert(unique_constraints.deep_view() =~= self.unique_constraints.deep_view()
                    .subrange(0, i + 1 as int));
            }
            i = i + 1;
        }
        proof {
            let dv = self.unique_constraints.deep_view();
            assert(dv.subrange(0, dv.len() as int) =~= dv);
        }
        ColumnSpec {
            name: self.name.clone(),
            typ: self.typ.clone(),
            is_pk: self.is_pk,
            is_auto_increment: self.is_auto_increment,
            is_nullable: self.is_nullable,
            unique_constraints,
        }
    }
}

/// The SQL spelling of a column type. A reference column is rendered with the
/// referenced table's key type followed by a `REFERENCES` clause.
pub open spec fn sql_type(t: ColumnTypeSpecV) -> Seq<char>
    decreases t,
{
    match t {
        ColumnTypeSpecV::Int => "INT"@,
        ColumnTypeSpecV::Text => "TEXT"@,
        ColumnTypeSpecV::Boolean => "BOOLEAN"@,
        ColumnTypeSpecV::Uuid => "UUID"@,
        ColumnTypeSpecV::ColumnReference { foreign_table_name, foreign_pk_type, .. } => {
            sql_type(*foreign_pk_type) + " REFERENCES "@ + quoted(foreign_table_name)
        },
    }
}

/// The column's line inside a `CREATE TABLE` statement: quoted name, type
/// (`SERIAL` for an auto-increment column), and `PRIMARY KEY` or `NOT NULL`
/// where the flags ask for them.
pub open spec fn column_ddl(c: ColumnSpecV) -> Seq<char> {
    quoted(c.name) + " "@ + (if c.is_auto_increment {
        "SERIAL"@
    } else {
        sql_type(c.typ)
    }) + (if c.is_pk {
        " PRIMARY KEY"@
    } else if !c.is_nullable {
        " NOT NULL"@
    } else {
        Seq::<char>::empty()
    })
}

fn render_sql_type(t: &ColumnTypeSpec) -> (r: String)
    ensures
        r@ == sql_type(t@),
    decreases *t,
{
    match t {
        ColumnTypeSpec::Int => "INT".to_owned(),
        ColumnTypeSpec::Text => "TEXT".to_owned(),
        ColumnTypeSpec::Boolean => "BOOLEAN".to_owned(),
        ColumnTypeSpec::Uuid => "UUID".to_owned(),
        ColumnTypeSpec::ColumnReference { foreign_table_name, foreign_pk_type, .. } => {
            let mut r = render_sql_type(foreign_pk_type);
            r.append(" REFERENCES ");
            r.append("\"");
            r.append(foreign_table_name.as_str());
            r.append("\"");
            r
        },
    }
}

fn type_eq(a: &ColumnTypeSpec, b: &ColumnTypeSpec) -> (r: bool)
    ensures
        r == (a@ == b@),
    decreases *a,
{
    match (a, b) {
        (ColumnTypeSpec::Int, ColumnTypeSpec::Int) => true,
        (ColumnTypeSpec::Text, ColumnTypeSpec::Text) => true,
        (ColumnTypeSpec::Boolean, ColumnTypeSpec::Boolean) => true,
        (ColumnTypeSpec::Uuid, ColumnTypeSpec::Uuid) => true,
        (
            ColumnTypeSpec::ColumnReference {
                foreign_table_name: at,
                foreign_pk_column_name: ac,
                foreign_pk_type: ak,
            },
            ColumnTypeSpec::ColumnReference {
                foreign_table_name: bt,
                foreign_pk_column_name: bc,
                foreign_pk_type: bk,
            },
        ) => crate::text::str_eq(at.as_str(), bt.as_str())
            && crate::text::str_eq(ac.as_str(), bc.as_str()) && type_eq(ak, bk),
        _ => false,
    }
}

/// The columns differ in a way the column-level diff reports: a change of
/// type, nullability, primary-key or auto-increment status. Unique-constraint
/// membership is compared by the constraint-level diff, not here.
pub open spec fn columns_differ(a: ColumnSpecV, b: ColumnSpecV) -> bool {
    ||| a.typ != b.typ
    ||| a.is_pk != b.is_pk
    ||| a.is_auto_increment != b.is_auto_increment
    ||| a.is_nullable != b.is_nullable
}

impl ColumnSpec {
    /// Decides `columns_differ(self@, other@)`.
    pub fn differs(&self, other: &ColumnSpec) -> (r: bool)
        ensures
            r == columns_differ(self@, other@),
    {
        !type_eq(&self.typ, &other.typ) || self.is_pk != other.is_pk
            || self.is_auto_increment != other.is_auto_increment
            || self.is_nullable != other.is_nullable
    }

    /// Renders the column's line of a `CREATE TABLE` statement.
    pub fn to_sql(&self) -> (r: String)
        ensures
            r@ == column_ddl(self@),
    {
        let mut r = String::new();
        r.append("\"");
        r.append(self.name.as_str());
        r.append("\"");
        r.append(" ");
        if self.is_auto_increment {
            r.append("SERIAL");
        } else {
            let t = render_sql_type(&self.typ);
            r.append(t.as_str());
        }
        if self.is_pk {
            r.append(" PRIMARY KEY");
        } else if !self.is_nullable {
            r.append(" NOT NULL");
        }
        r
    }
}

} // verus!
