//! Tests of the schema diff and the DDL renderers.

use exo_sql::column_spec::{ColumnSpec, ColumnTypeSpec};
use exo_sql::op::SchemaOp;
use exo_sql::schema_spec::SchemaSpec;
use exo_sql::table_spec::TableSpec;

fn col(name: &str, typ: ColumnTypeSpec, is_pk: bool) -> ColumnSpec {
    ColumnSpec {
        name: name.to_string(),
        typ,
        is_pk,
        is_auto_increment: false,
        is_nullable: false,
        unique_constraints: Vec::new(),
    }
}

fn col_with_uniques(name: &str, typ: ColumnTypeSpec, uniques: &[&str]) -> ColumnSpec {
    ColumnSpec {
        name: name.to_string(),
        typ,
        is_pk: false,
        is_auto_increment: false,
        is_nullable: false,
        unique_constraints: uniques.iter().map(|u| u.to_string()).collect(),
    }
}

#[test]
fn diff_identical_tables_is_empty() {
    let t = TableSpec::new(
        "concert".to_string(),
        vec![
            col("id", ColumnTypeSpec::Int, true),
            col("title", ColumnTypeSpec::Text, false),
        ],
    );
    let u = TableSpec::new(
        "concert".to_string(),
        vec![
            col("id", ColumnTypeSpec::Int, true),
            col("title", ColumnTypeSpec::Text, false),
        ],
    );
    assert_eq!(t.diff(&u), Vec::new());
}

#[test]
fn diff_identical_tables_with_constraints_is_empty() {
    let t = TableSpec::new(
        "person".to_string(),
        vec![
            col("id", ColumnTypeSpec::Int, true),
            col_with_uniques("name", ColumnTypeSpec::Text, &["uq_name"]),
        ],
    );
    let u = TableSpec::new(
        "person".to_string(),
        vec![
            col("id", ColumnTypeSpec::Int, true),
            col_with_uniques("name", ColumnTypeSpec::Text, &["uq_name"]),
        ],
    );
    assert_eq!(t.diff(&u), Vec::new());
}

#[test]
fn diff_added_column_yields_one_create_column() {
    let existing = TableSpec::new(
        "t".to_string(),
        vec![
            col("id", ColumnTypeSpec::Int, true),
            col("name", ColumnTypeSpec::Text, false),
        ],
    );
    let target = TableSpec::new(
        "t".to_string(),
        vec![
            col("id", ColumnTypeSpec::Int, true),
            col("name", ColumnTypeSpec::Text, false),
            col("age", ColumnTypeSpec::Int, false),
        ],
    );
    let changes = existing.diff(&target);
    assert_eq!(changes.len(), 1);
    match &changes[0] {
        SchemaOp::CreateColumn { table_name, column } => {
            assert_eq!(table_name, "t");
            assert_eq!(column.name, "age");
        }
        other => panic!("unexpected op: {other:?}"),
    }
}

#[test]
fn diff_removed_column_yields_one_delete_column() {
    let existing = TableSpec::new(
        "t".to_string(),
        vec![
            col("id", ColumnTypeSpec::Int, true),
            col("name", ColumnTypeSpec::Text, false),
        ],
    );
    let target = TableSpec::new("t".to_string(), vec![col("id", ColumnTypeSpec::Int, true)]);
    let changes = existing.diff(&target);
    assert_eq!(changes.len(), 1);
    match &changes[0] {
        SchemaOp::DeleteColumn { table_name, column_name } => {
            assert_eq!(table_name, "t");
            assert_eq!(column_name, "name");
        }
        other => panic!("unexpected op: {other:?}"),
    }
}

#[test]
fn diff_changed_column_type_replaces_the_column() {
    let existing = TableSpec::new("t".to_string(), vec![col("x", ColumnTypeSpec::Int, false)]);
    let target = TableSpec::new("t".to_string(), vec![col("x", ColumnTypeSpec::Text, false)]);
    let changes = existing.diff(&target);
    assert_eq!(changes.len(), 2);
    assert!(matches!(&changes[0], SchemaOp::DeleteColumn { column_name, .. } if column_name == "x"));
    match &changes[1] {
        SchemaOp::CreateColumn { column, .. } => {
            assert_eq!(column.typ, ColumnTypeSpec::Text);
        }
        other => panic!("unexpected op: {other:?}"),
    }
}

#[test]
fn diff_changed_constraint_is_remove_then_create_with_sorted_columns() {
    let existing = TableSpec::new(
        "t".to_string(),
        vec![
            col_with_uniques("name", ColumnTypeSpec::Text, &["u"]),
            col("age", ColumnTypeSpec::Int, false),
        ],
    );
    let target = TableSpec::new(
        "t".to_string(),
        vec![
            col_with_uniques("name", ColumnTypeSpec::Text, &["u"]),
            col_with_uniques("age", ColumnTypeSpec::Int, &["u"]),
        ],
    );
    let changes = existing.diff(&target);
    assert_eq!(changes.len(), 2);
    assert!(matches!(
        &changes[0],
        SchemaOp::RemoveUniqueConstraint { table_name, constraint }
            if table_name == "t" && constraint == "u"
    ));
    match &changes[1] {
        SchemaOp::CreateUniqueConstraint { table_name, constraint_name, columns } => {
            assert_eq!(table_name, "t");
            assert_eq!(constraint_name, "u");
            assert_eq!(columns, &vec!["age".to_string(), "name".to_string()]);
        }
        other => panic!("unexpected op: {other:?}"),
    }
}

#[test]
fn diff_new_constraint_is_created() {
    let existing = TableSpec::new("t".to_string(), vec![col("name", ColumnTypeSpec::Text, false)]);
    let target = TableSpec::new(
        "t".to_string(),
        vec![col_with_uniques("name", ColumnTypeSpec::Text, &["uq"])],
    );
    let changes = existing.diff(&target);
    assert_eq!(changes.len(), 1);
    assert!(matches!(
        &changes[0],
        SchemaOp::CreateUniqueConstraint { constraint_name, .. } if constraint_name == "uq"
    ));
}

#[test]
fn diff_dropped_constraint_is_removed() {
    let existing = TableSpec::new(
        "t".to_string(),
        vec![col_with_uniques("name", ColumnTypeSpec::Text, &["uq"])],
    );
    let target = TableSpec::new("t".to_string(), vec![col("name", ColumnTypeSpec::Text, false)]);
    let changes = existing.diff(&target);
    assert_eq!(changes.len(), 1);
    assert!(matches!(
        &changes[0],
        SchemaOp::RemoveUniqueConstraint { constraint, .. } if constraint == "uq"
    ));
}

#[test]
fn schema_diff_of_identical_snapshots_is_empty() {
    let a = SchemaSpec {
        tables: vec![
            TableSpec::new("concert".to_string(), vec![col("id", ColumnTypeSpec::Int, true)]),
            TableSpec::new("venue".to_string(), vec![col("id", ColumnTypeSpec::Int, true)]),
        ],
    };
    let b = SchemaSpec {
        tables: vec![
            TableSpec::new("concert".to_string(), vec![col("id", ColumnTypeSpec::Int, true)]),
            TableSpec::new("venue".to_string(), vec![col("id", ColumnTypeSpec::Int, true)]),
        ],
    };
    assert_eq!(a.diff(&b), Vec::new());
}

#[test]
fn schema_diff_creates_and_drops_tables() {
    let existing = SchemaSpec {
        tables: vec![TableSpec::new(
            "old".to_string(),
            vec![col("id", ColumnTypeSpec::Int, true)],
        )],
    };
    let target = SchemaSpec {
        tables: vec![TableSpec::new(
            "new".to_string(),
            vec![col("id", ColumnTypeSpec::Int, true)],
        )],
    };
    let changes = existing.diff(&target);
    assert_eq!(changes.len(), 2);
    assert!(matches!(&changes[0], SchemaOp::DeleteTable { table } if table.name == "old"));
    assert!(matches!(&changes[1], SchemaOp::CreateTable { table } if table.name == "new"));
}

#[test]
fn creation_sql_renders_columns_and_constraints() {
    let t = TableSpec::new(
        "venue".to_string(),
        vec![
            ColumnSpec {
                name: "id".to_string(),
                typ: ColumnTypeSpec::Int,
                is_pk: true,
                is_auto_increment: true,
                is_nullable: false,
                unique_constraints: Vec::new(),
            },
            ColumnSpec {
                name: "name".to_string(),
                typ: ColumnTypeSpec::Text,
                is_pk: false,
                is_auto_increment: false,
                is_nullable: true,
                unique_constraints: vec!["uq_name".to_string()],
            },
        ],
    );
    let stmt = t.creation_sql();
    assert_eq!(
        stmt.statement,
        "CREATE TABLE \"venue\" (\n\t\"id\" SERIAL PRIMARY KEY,\n\t\"name\" TEXT\n);"
    );
    assert!(stmt.pre_statements.is_empty());
    assert_eq!(
        stmt.post_statements,
        vec!["ALTER TABLE \"venue\" ADD CONSTRAINT \"uq_name\" UNIQUE (\"name\");".to_string()]
    );
}

#[test]
fn creation_sql_renders_reference_columns() {
    let t = TableSpec::new(
        "concert".to_string(),
        vec![
            col("id", ColumnTypeSpec::Int, true),
            col(
                "venue_id",
                ColumnTypeSpec::ColumnReference {
                    foreign_table_name: "venue".to_string(),
                    foreign_pk_column_name: "id".to_string(),
                    foreign_pk_type: Box::new(ColumnTypeSpec::Int),
                },
                false,
            ),
        ],
    );
    let stmt = t.creation_sql();
    assert_eq!(
        stmt.statement,
        "CREATE TABLE \"concert\" (\n\t\"id\" INT PRIMARY KEY,\n\t\"venue_id\" INT REFERENCES \"venue\" NOT NULL\n);"
    );
}

#[test]
fn deletion_sql_drops_constraints_then_table() {
    let t = TableSpec::new(
        "venue".to_string(),
        vec![col_with_uniques("name", ColumnTypeSpec::Text, &["uq_name"])],
    );
    let stmt = t.deletion_sql();
    assert_eq!(stmt.statement, "DROP TABLE \"venue\" CASCADE;");
    assert_eq!(
        stmt.pre_statements,
        vec!["ALTER TABLE \"venue\" DROP CONSTRAINT \"uq_name\";".to_string()]
    );
    assert!(stmt.post_statements.is_empty());
}

#[test]
fn op_to_sql_renders_each_variant() {
    let create_col = SchemaOp::CreateColumn {
        table_name: "t".to_string(),
        column: col("age", ColumnTypeSpec::Int, false),
    };
    assert_eq!(create_col.to_sql().statement, "ALTER TABLE \"t\" ADD \"age\" INT NOT NULL;");

    let delete_col = SchemaOp::DeleteColumn {
        table_name: "t".to_string(),
        column_name: "age".to_string(),
    };
    assert_eq!(delete_col.to_sql().statement, "ALTER TABLE \"t\" DROP COLUMN \"age\";");

    let create_uc = SchemaOp::CreateUniqueConstraint {
        table_name: "t".to_string(),
        constraint_name: "u".to_string(),
        columns: vec!["age".to_string(), "name".to_string()],
    };
    assert_eq!(
        create_uc.to_sql().statement,
        "ALTER TABLE \"t\" ADD CONSTRAINT \"u\" UNIQUE (\"age\", \"name\");"
    );

    let remove_uc = SchemaOp::RemoveUniqueConstraint {
        table_name: "t".to_string(),
        constraint: "u".to_string(),
    };
    assert_eq!(remove_uc.to_sql().statement, "ALTER TABLE \"t\" DROP CONSTRAINT \"u\";");
}

#[test]
fn destructive_ops_are_identifiable() {
    let t = TableSpec::new("t".to_string(), Vec::new());
    assert!(SchemaOp::DeleteTable { table: t }.is_destructive());
    assert!(SchemaOp::DeleteColumn {
        table_name: "t".to_string(),
        column_name: "c".to_string()
    }
    .is_destructive());
    let u = TableSpec::new("u".to_string(), Vec::new());
    assert!(!SchemaOp::CreateTable { table: u }.is_destructive());
    assert!(!SchemaOp::RemoveUniqueConstraint {
        table_name: "t".to_string(),
        constraint: "u".to_string()
    }
    .is_destructive());
}

#[test]
fn required_extensions_reports_pgcrypto_for_uuid() {
    let plain = TableSpec::new("t".to_string(), vec![col("id", ColumnTypeSpec::Int, true)]);
    assert!(plain.get_required_extensions().is_empty());

    let with_uuid = TableSpec::new(
        "t".to_string(),
        vec![col("id", ColumnTypeSpec::Uuid, true), col("x", ColumnTypeSpec::Uuid, false)],
    );
    assert_eq!(with_uuid.get_required_extensions(), vec!["pgcrypto".to_string()]);
}

#[test]
fn sorted_comma_list_sorts_and_quotes_names() {
    let names = vec!["b_col".to_string(), "a_col".to_string(), "c_col".to_string()];
    assert_eq!(
        exo_sql::text::sorted_comma_list(&names),
        "\"a_col\", \"b_col\", \"c_col\""
    );
}

#[test]
fn named_unique_constraints_groups_columns_by_constraint() {
    let t = TableSpec::new(
        "t".to_string(),
        vec![
            col_with_uniques("a", ColumnTypeSpec::Text, &["u1", "u2"]),
            col_with_uniques("b", ColumnTypeSpec::Text, &["u1"]),
        ],
    );
    let constraints = t.named_unique_constraints();
    assert_eq!(
        constraints,
        vec![
            ("u1".to_string(), vec!["a".to_string(), "b".to_string()]),
            ("u2".to_string(), vec!["a".to_string()]),
        ]
    );
}
