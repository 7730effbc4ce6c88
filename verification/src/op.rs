//! One atomic structural schema change, and its rendering to DDL text.
//!
//! `SchemaOp` values are produced by the schema diff and immediately lowered
//! to DDL statements or applied; they are never persisted.

use vstd::prelude::*;

use crate::column_spec::{column_ddl, ColumnSpec, ColumnSpecV};
use crate::table_spec::{
    creation_posts, creation_statement, deletion_pres, deletion_statement, TableSpec, TableSpecV,
};
use crate::text::{comma_sep, quoted};

verus! {

/// A renderable group of SQL statements: the statement itself, statements
/// that must run before it, and statements that must run after it.
#[derive(Debug, PartialEq)]
pub struct SchemaStatement {
    pub statement: String,
    pub pre_statements: Vec<String>,
    pub post_statements: Vec<String>,
}

/// One atomic structural schema change.
#[derive(Debug, PartialEq)]
pub enum SchemaOp {
    CreateTable { table: TableSpec },
    DeleteTable { table: TableSpec },
    CreateColumn { table_name: String, column: ColumnSpec },
    DeleteColumn { table_name: String, column_name: String },
    CreateUniqueConstraint { table_name: String, constraint_name: String, columns: Vec<String> },
    RemoveUniqueConstraint { table_name: String, constraint: String },
}

/// Mathematical model of a `SchemaOp`.
pub enum SchemaOpV {
    CreateTable { table: TableSpecV },
    DeleteTable { table: TableSpecV },
    CreateColumn { table_name: Seq<char>, column: ColumnSpecV },
    DeleteColumn { table_name: Seq<char>, column_name: Seq<char> },
    CreateUniqueConstraint {
        table_name: Seq<char>,
        constraint_name: Seq<char>,
        columns: Seq<Seq<char>>,
    },
    RemoveUniqueConstraint { table_name: Seq<char>, constraint: Seq<char> },
}

impl View for SchemaOp {
    type V = SchemaOpV;

    open spec fn view(&self) -> SchemaOpV {
        match self {
            SchemaOp::CreateTable { table } => SchemaOpV::CreateTable { table: table@ },
            SchemaOp::DeleteTable { table } => SchemaOpV::DeleteTable { table: table@ },
            SchemaOp::CreateColumn { table_name, column } => SchemaOpV::CreateColumn {
                table_name: table_name@,
                column: column@,
            },
            SchemaOp::DeleteColumn { table_name, column_name } => SchemaOpV::DeleteColumn {
                table_name: table_name@,
                column_name: column_name@,
            },
            SchemaOp::CreateUniqueConstraint { table_name, constraint_name, columns } => {
                SchemaOpV::CreateUniqueConstraint {
                    table_name: table_name@,
                    constraint_name: constraint_name@,
                    columns: columns.deep_view(),
                }
            },
            SchemaOp::RemoveUniqueConstraint { table_name, constraint } => {
                SchemaOpV::RemoveUniqueConstraint {
                    table_name: table_name@,
                    constraint: constraint@,
                }
            },
        }
    }
}

impl DeepView for SchemaOp {
    type V = SchemaOpV;

    open spec fn deep_view(&self) -> SchemaOpV {
        self.view()
    }
}

/// The single statement an op renders to. Constraint column lists are
/// rendered exactly as carried by the op (the diff stores them sorted).
pub open spec fn op_statement(op: SchemaOpV) -> Seq<char> {
    match op {
        SchemaOpV::CreateTable { table } => creation_statement(table),
        SchemaOpV::DeleteTable { table } => deletion_statement(table),
        SchemaOpV::CreateColumn { table_name, column } => {
            "ALTER TABLE "@ + quoted(table_name) + " ADD "@ + column_ddl(column) + ";"@
        },
        SchemaOpV::DeleteColumn { table_name, column_name } => {
            "ALTER TABLE "@ + quoted(table_name) + " DROP COLUMN "@ + quoted(column_name) + ";"@
        },
        SchemaOpV::CreateUniqueConstraint { table_name, constraint_name, columns } => {
            "ALTER TABLE "@ + quoted(table_name) + " ADD CONSTRAINT "@ + quoted(constraint_name)
                + " UNIQUE ("@ + comma_sep(columns) + ");"@
        },
        SchemaOpV::RemoveUniqueConstraint { table_name, constraint } => {
            "ALTER TABLE "@ + quoted(table_name) + " DROP CONSTRAINT "@ + quoted(constraint)
                + ";"@
        },
    }
}

/// Statements that must run before the op's own statement.
pub open spec fn op_pre_statements(op: SchemaOpV) -> Seq<Seq<char>> {
    match op {
        SchemaOpV::DeleteTable { table } => deletion_pres(table),
        _ => Seq::empty(),
    }
}

/// Statements that must run after the op's own statement.
pub open spec fn op_post_statements(op: SchemaOpV) -> Seq<Seq<char>> {
    match op {
        SchemaOpV::CreateTable { table } => creation_posts(table),
        _ => Seq::empty(),
    }
}

impl SchemaOp {
    /// The op removes something a database user may depend on: dropping a
    /// table or a column loses data, so a caller may choose to hold such ops
    /// back rather than apply them.
    pub open spec fn spec_is_destructive(&self) -> bool {
        self@ is DeleteTable || self@ is DeleteColumn
    }

    /// Decides `spec_is_destructive`.
    pub fn is_destructive(&self) -> (r: bool)
        ensures
            r == self.spec_is_destructive(),
    {
        match self {
            SchemaOp::DeleteTable { .. } => true,
            SchemaOp::DeleteColumn { .. } => true,
            _ => false,
        }
    }

    /// Renders the op to DDL.
    pub fn to_sql(&self) -> (r: SchemaStatement)
        ensures
            r.statement@ == op_statement(self@),
            r.pre_statements.deep_view() == op_pre_statements(self@),
            r.post_statements.deep_view() == op_post_statements(self@),
    {
        match self {
            SchemaOp::CreateTable { table } => table.creation_sql(),
            SchemaOp::DeleteTable { table } => table.deletion_sql(),
            SchemaOp::CreateColumn { table_name, column } => {
                let mut s = String::new();
                s.append("ALTER TABLE ");
                s.append("\"");
                s.append(table_name.as_str());
                s.append("\"");
                s.append(" ADD ");
                let line = column.to_sql();
                s.append(line.as_str());
                s.append(";");
                let r = SchemaStatement {
                    statement: s,
                    pre_statements: Vec::new(),
                    post_statements: Vec::new(),
                };
                proof {
                    assert(r.pre_statements.deep_view() =~= Seq::<Seq<char>>::empty());
                    assert(r.post_statements.deep_view() =~= Seq::<Seq<char>>::empty());
                }
                r
            },
            SchemaOp::DeleteColumn { table_name, column_name } => {
                let mut s = String::new();
                s.append("ALTER TABLE ");
                s.append("\"");
                s.append(table_name.as_str());
                s.append("\"");
                s.append(" DROP COLUMN ");
                s.append("\"");
                s.append(column_name.as_str());
                s.append("\"");
                s.append(";");
                let r = SchemaStatement {
                    statement: s,
                    pre_statements: Vec::new(),
                    post_statements: Vec::new(),
                };
                proof {
                    assert(r.pre_statements.deep_view() =~= Seq::<Seq<char>>::empty());
                    assert(r.post_statements.deep_view() =~= Seq::<Seq<char>>::empty());
                }
                r
            },
            SchemaOp::CreateUniqueConstraint { table_name, constraint_name, columns } => {
                let mut s = String::new();
                s.append("ALTER TABLE ");
                s.append("\"");
                s.append(table_name.as_str());
                s.append("\"");
                s.append(" ADD CONSTRAINT ");
                s.append("\"");
                s.append(constraint_name.as_str());
                s.append("\"");
                s.append(" UNIQUE (");
                let list = crate::text::comma_list(columns);
                s.append(list.as_str());
                s.append(");");
                let r = SchemaStatement {
                    statement: s,
                    pre_statements: Vec::new(),
                    post_statements: Vec::new(),
                };
                proof {
                    assert(r.pre_statements.deep_view() =~= Seq::<Seq<char>>::empty());
                    assert(r.post_statements.deep_view() =~= Seq::<Seq<char>>::empty());
                }
                r
            },
            SchemaOp::RemoveUniqueConstraint { table_name, constraint } => {
                let mut s = String::new();
                s.append("ALTER TABLE ");
                s.append("\"");
                s.append(table_name.as_str());
                s.append("\"");
                s.append(" DROP CONSTRAINT ");
                s.append("\"");
                s.append(constraint.as_str());
                s.append("\"");
                s.append(";");
                let r = SchemaStatement {
                    statement: s,
                    pre_statements: Vec::new(),
                    post_statements: Vec::new(),
                };
                proof {
                    assert(r.pre_statements.deep_view() =~= Seq::<Seq<char>>::empty());
                    assert(r.post_statements.deep_view() =~= Seq::<Seq<char>>::empty());
                }
                r
            },
        }
    }
}

} // verus!
