//! Rendering of a schema snapshot as a declarative model file, the reverse
//! direction of schema generation: each table becomes a model declaration,
//! each column a field.

use vstd::prelude::*;

use crate::column_spec::{ColumnSpec, ColumnSpecV, ColumnTypeSpec, ColumnTypeSpecV};
use crate::issue::{Issue, WithIssues};
use crate::schema_spec::SchemaSpec;
use crate::table_spec::{TableSpec, TableSpecV};

verus! {

/// What `to_model_name` returns: the upper-camel-case form of a name.
pub uninterp spec fn upper_camel_of(s: Seq<char>) -> Seq<char>;

/// Relies on heck's `to_upper_camel_case`: the result depends on the
/// characters of the input alone.
#[verifier::external_body]
fn upper_camel(s: &str) -> (r: String)
    ensures
        r@ == upper_camel_of(s@),
{
    heck::ToUpperCamelCase::to_upper_camel_case(s)
}

/// Converts the name of a SQL table to a model name, as in
/// `concert_artist` becoming `ConcertArtist`.
pub fn to_model_name(name: &str) -> (r: String)
    ensures
        r@ == upper_camel_of(name@),
{
    upper_camel(name)
}

/// The model spelling of a column type; a reference column is spelled as the
/// referenced table's model name.
pub open spec fn type_model_name(t: ColumnTypeSpecV) -> Seq<char> {
    match t {
        ColumnTypeSpecV::Int => "Int"@,
        ColumnTypeSpecV::Text => "String"@,
        ColumnTypeSpecV::Boolean => "Boolean"@,
        ColumnTypeSpecV::Uuid => "Uuid"@,
        ColumnTypeSpecV::ColumnReference { foreign_table_name, .. } => upper_camel_of(
            foreign_table_name,
        ),
    }
}

/// One column's field line: name, type (with `?` for a nullable column),
/// auto-increment marker and primary-key annotation.
pub open spec fn column_model(c: ColumnSpecV) -> Seq<char> {
    c.name + ": "@ + type_model_name(c.typ) + (if c.is_nullable {
        "?"@
    } else {
        Seq::<char>::empty()
    }) + (if c.is_auto_increment {
        " = autoIncrement()"@
    } else {
        Seq::<char>::empty()
    }) + (if c.is_pk {
        " @pk"@
    } else {
        Seq::<char>::empty()
    })
}

/// The advisory hint a reference column carries: the referenced table could
/// declare the reverse one-to-many field.
pub open spec fn column_model_issues(c: ColumnSpecV, table_name: Seq<char>) -> Seq<Seq<char>> {
    match c.typ {
        ColumnTypeSpecV::ColumnReference { foreign_table_name, .. } => seq![
            "consider adding a field to `"@ + foreign_table_name + "` of type `["@
                + upper_camel_of(table_name) + "]` to create a one-to-many relationship"@,
        ],
        _ => Seq::empty(),
    }
}

/// The field lines of a model declaration, in column order.
pub open spec fn column_block(cols: Seq<ColumnSpecV>) -> Seq<char>
    decreases cols.len(),
{
    if cols.len() == 0 {
        Seq::empty()
    } else {
        column_block(cols.drop_last()) + "  "@ + column_model(cols.last()) + "\n"@
    }
}

/// The advisory issues of all columns, in column order.
pub open spec fn columns_issues(cols: Seq<ColumnSpecV>, table_name: Seq<char>) -> Seq<Seq<char>>
    decreases cols.len(),
{
    if cols.len() == 0 {
        Seq::empty()
    } else {
        columns_issues(cols.drop_last(), table_name) + column_model_issues(
            cols.last(),
            table_name,
        )
    }
}

/// The table name ends in `s`: not a robust plural check, only a hint.
pub open spec fn ends_with_s(name: Seq<char>) -> bool {
    name.len() > 0 && name.last() == 's'
}

/// One table's model declaration: the table annotation, the model header
/// with the camel-cased name, and the field lines.
pub open spec fn table_model(t: TableSpecV) -> Seq<char> {
    "@table(\""@ + t.name + "\")\nmodel "@ + upper_camel_of(t.name) + " {\n"@ + column_block(
        t.columns,
    ) + "}"@
}

/// A table's advisory issues: its columns' hints, then a singular-name hint
/// when the table name looks plural.
pub open spec fn table_model_issues(t: TableSpecV) -> Seq<Seq<char>> {
    columns_issues(t.columns, t.name) + (if ends_with_s(t.name) {
        seq![
            "model name `"@ + upper_camel_of(t.name) + "` should be changed to singular"@,
        ]
    } else {
        Seq::<Seq<char>>::empty()
    })
}

/// The whole schema's model text: each table's declaration followed by a
/// blank line.
pub open spec fn schema_model(tables: Seq<TableSpecV>) -> Seq<char>
    decreases tables.len(),
{
    if tables.len() == 0 {
        Seq::empty()
    } else {
        schema_model(tables.drop_last()) + table_model(tables.last()) + "\n\n"@
    }
}

/// The whole schema's advisory issues, in table order.
pub open spec fn schema_model_issues(tables: Seq<TableSpecV>) -> Seq<Seq<char>>
    decreases tables.len(),
{
    if tables.len() == 0 {
        Seq::empty()
    } else {
        schema_model_issues(tables.drop_last()) + table_model_issues(tables.last())
    }
}

/// Conversion to a declarative model file.
pub trait ToModel {
    /// The model text the conversion renders.
    spec fn spec_model(&self) -> Seq<char>;

    /// The advisory issues the conversion surfaces.
    spec fn spec_model_issues(&self) -> Seq<Seq<char>>;

    /// Renders the model text, collecting advisory issues.
    fn to_model(&self) -> (r: WithIssues<String>)
        ensures
            r.value@ == self.spec_model(),
            r.issues.deep_view() == self.spec_model_issues(),
    ;
}

fn render_type_model(t: &ColumnTypeSpec) -> (r: String)
    ensures
        r@ == type_model_name(t@),
{
    match t {
        ColumnTypeSpec::Int => "Int".to_owned(),
        ColumnTypeSpec::Text => "String".to_owned(),
        ColumnTypeSpec::Boolean => "Boolean".to_owned(),
        ColumnTypeSpec::Uuid => "Uuid".to_owned(),
        ColumnTypeSpec::ColumnReference { foreign_table_name, .. } => to_model_name(
            foreign_table_name.as_str(),
        ),
    }
}

impl ColumnSpec {
    /// Renders the column's field line; `table_name` is the owning table,
    /// named in the reverse-relation hint of a reference column.
    pub fn to_model(&self, table_name: &str) -> (r: WithIssues<String>)
        ensures
            r.value@ == column_model(self@),
            r.issues.deep_view() == column_model_issues(self@, table_name@),
    {
        let mut value = String::new();
        value.append(self.name.as_str());
        value.append(": ");
        let data_type = render_type_model(&self.typ);
        value.append(data_type.as_str());
        if self.is_nullable {
            value.append("?");
        }
        if self.is_auto_increment {
            value.append(" = autoIncrement()");
        }
        if self.is_pk {
            value.append(" @pk");
        }
        proof {
            assert(value@ =~= column_model(self@));
        }
        let mut issues: Vec<Issue> = Vec::new();
        match &self.typ {
            ColumnTypeSpec::ColumnReference { foreign_table_name, .. } => {
                let mut msg = String::new();
                msg.append("consider adding a field to `");
                msg.append(foreign_table_name.as_str());
                msg.append("` of type `[");
                let model_name = to_model_name(table_name);
                msg.append(model_name.as_str());
                msg.append("]` to create a one-to-many relationship");
                let ghost msgv = msg@;
                issues.push(Issue::Hint(msg));
                proof {
                    assert(issues.deep_view() =~= seq![msgv]);
                    assert(msgv =~= column_model_issues(self@, table_name@)[0]);
                    assert(issues.deep_view() =~= column_model_issues(self@, table_name@));
                }
            },
            _ => {
                proof {
                    assert(issues.deep_view() =~= column_model_issues(self@, table_name@));
                }
            },
        }
        WithIssues { value, issues }
    }
}

impl ToModel for TableSpec {
    open spec fn spec_model(&self) -> Seq<char> {
        table_model(self@)
    }

    open spec fn spec_model_issues(&self) -> Seq<Seq<char>> {
        table_model_issues(self@)
    }

    /// Renders the table as a model declaration, surfacing its columns'
    /// hints and a singular-name hint for a plural-looking table name.
    fn to_model(&self) -> (r: WithIssues<String>) {
        let ghost cols = self@.columns;
        let mut issues: Vec<Issue> = Vec::new();
        let mut body = String::new();
        proof {
            assert(cols.subrange(0, 0) =~= Seq::<ColumnSpecV>::empty());
            assert(body@ =~= column_block(cols.subrange(0, 0)));
            assert(issues.deep_view() =~= Seq::<Seq<char>>::empty());
        }
        let mut i: usize = 0;
        while i < self.columns.len()
            invariant
                i <= self.columns.len(),
                cols == self@.columns,
                cols.len() == self.columns.len(),
                body@ == column_block(cols.subrange(0, i as int)),
                issues.deep_view() == columns_issues(cols.subrange(0, i as int), self@.name),
            decreases self.columns.len() - i,
        {
            let c = &self.columns[i];
            assert(c@ == cols[i as int]);
            let mut col_model = c.to_model(self.name.as_str());
            body.append("  ");
            body.append(col_model.value.as_str());
            body.append("\n");
            let ghost issues_before = issues.deep_view();
            let ghost col_issues = col_model.issues.deep_view();
            issues.append(&mut col_model.issues);
            proof {
                assert(issues.deep_view() =~= issues_before + col_issues);
                let pfx = cols.subrange(0, i + 1 as int);
                assert(pfx.drop_last() =~= cols.subrange(0, i as int));
                assert(pfx.last() == cols[i as int]);
                assert(body@ =~= column_block(pfx));
                assert(issues.deep_view() =~= columns_issues(pfx, self@.name));
            }
            i = i + 1;
        }
        proof {
            assert(cols.subrange(0, cols.len() as int) =~= cols);
        }
        let name_len = self.name.as_str().unicode_len();
        if name_len > 0 && self.name.as_str().get_char(name_len - 1) == 's' {
            let mut msg = String::new();
            msg.append("model name `");
            let model_name = to_model_name(self.name.as_str());
            msg.append(model_name.as_str());
            msg.append("` should be changed to singular");
            let ghost msgv = msg@;
            let ghost issues_before = issues.deep_view();
            issues.push(Issue::Hint(msg));
            proof {
                assert(msgv =~= "model name `"@ + upper_camel_of(self@.name)
                    + "` should be changed to singular"@);
                assert(issues.deep_view() =~= issues_before.push(msgv));
                assert(issues.deep_view() =~= table_model_issues(self@));
            }
        } else {
            proof {
                assert(issues.deep_view() =~= table_model_issues(self@));
            }
        }
        let mut value = String::new();
        value.append("@table(\"");
        value.append(self.name.as_str());
        value.append("\")\nmodel ");
        let model_name = to_model_name(self.name.as_str());
        value.append(model_name.as_str());
        value.append(" {\n");
        value.append(body.as_str());
        value.append("}");
        proof {
            assert(value@ =~= table_model(self@));
        }
        WithIssues { value, issues }
    }
}

impl ToModel for SchemaSpec {
    open spec fn spec_model(&self) -> Seq<char> {
        schema_model(self@.tables)
    }

    open spec fn spec_model_issues(&self) -> Seq<Seq<char>> {
        schema_model_issues(self@.tables)
    }

    /// Renders the whole schema as a model file, concatenating each table's
    /// declaration and collecting every table's advisory issues.
    fn to_model(&self) -> (r: WithIssues<String>) {
        let ghost ts = self@.tables;
        let mut issues: Vec<Issue> = Vec::new();
        let mut value = String::new();
        proof {
            assert(ts.subrange(0, 0) =~= Seq::<TableSpecV>::empty());
            assert(value@ =~= schema_model(ts.subrange(0, 0)));
            assert(issues.deep_view() =~= Seq::<Seq<char>>::empty());
        }
        let mut i: usize = 0;
        while i < self.tables.len()
            invariant
                i <= self.tables.len(),
                ts == self@.tables,
                ts.len() == self.tables.len(),
                value@ == schema_model(ts.subrange(0, i as int)),
                issues.deep_view() == schema_model_issues(ts.subrange(0, i as int)),
            decreases self.tables.len() - i,
        {
            let t = &self.tables[i];
            assert(t@ == ts[i as int]);
            let mut table = t.to_model();
            value.append(table.value.as_str());
            value.append("\n\n");
            let ghost issues_before = issues.deep_view();
            let ghost table_issues = table.issues.deep_view();
            issues.append(&mut table.issues);
            proof {
                assert(issues.deep_view() =~= issues_before + table_issues);
                let pfx = ts.subrange(0, i + 1 as int);
                assert(pfx.drop_last() =~= ts.subrange(0, i as int));
                assert(pfx.last() == ts[i as int]);
                assert(value@ =~= schema_model(pfx));
                assert(issues.deep_view() =~= schema_model_issues(pfx));
            }
            i = i + 1;
        }
        proof {
            assert(ts.subrange(0, ts.len() as int) =~= ts);
        }
        WithIssues { value, issues }
    }
}

} // verus!
