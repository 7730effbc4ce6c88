//! Tests of selection lowering, in particular the correlation predicate of
//! sub-selections.

use exo_sql::order_by::{ColumnId, Postgres};
use exo_sql::selection::{
    AbstractSelect, AliasedSelectionElement, Column, ConcretePredicate, Database, ManyToOne,
    OneToMany, RelationId, Selection, SelectionCardinality, SelectionElement, SelectionSQL,
};

fn cid(table_index: usize, column_index: usize) -> ColumnId {
    ColumnId { table_index, column_index }
}

fn database() -> Database {
    Database {
        tables: Vec::new(),
        one_to_many: vec![OneToMany {
            self_pk_column_id: cid(0, 0),
            foreign_column_id: cid(1, 3),
        }],
        many_to_one: vec![ManyToOne {
            self_column_id: cid(1, 3),
            foreign_pk_column_id: cid(0, 0),
        }],
    }
}

fn aliased(alias: &str, column: SelectionElement) -> AliasedSelectionElement {
    AliasedSelectionElement { alias: alias.to_string(), column }
}

#[test]
fn one_to_many_subselect_correlates_parent_pk_to_child_fk() {
    let db = database();
    let element = SelectionElement::SubSelect(
        RelationId::OneToMany(0),
        Box::new(AbstractSelect { table_id: 1, selection: Selection::Flat(Vec::new()) }),
    );
    let column = element.to_sql(&Postgres {}, &db);
    match column {
        Column::SubSelect(select) => {
            assert_eq!(select.table_id, 1);
            assert_eq!(
                select.predicate,
                Some(ConcretePredicate::Eq(
                    Column::Physical(cid(0, 0)),
                    Column::Physical(cid(1, 3)),
                ))
            );
        }
        other => panic!("unexpected column: {other:?}"),
    }
}

#[test]
fn many_to_one_subselect_correlates_parent_fk_to_child_pk() {
    let db = database();
    let element = SelectionElement::SubSelect(
        RelationId::ManyToOne(0),
        Box::new(AbstractSelect { table_id: 0, selection: Selection::Flat(Vec::new()) }),
    );
    let column = element.to_sql(&Postgres {}, &db);
    match column {
        Column::SubSelect(select) => {
            assert_eq!(
                select.predicate,
                Some(ConcretePredicate::Eq(
                    Column::Physical(cid(1, 3)),
                    Column::Physical(cid(0, 0)),
                ))
            );
        }
        other => panic!("unexpected column: {other:?}"),
    }
}

#[test]
fn flat_selection_lowers_each_element_independently() {
    let db = database();
    let selection = Selection::Flat(vec![
        aliased("id", SelectionElement::Physical(cid(0, 0))),
        aliased(
            "upper_title",
            SelectionElement::Function {
                function_name: "upper".to_string(),
                column_id: cid(0, 1),
            },
        ),
        aliased("kind", SelectionElement::Constant("concert".to_string())),
    ]);
    match selection.to_sql(&Postgres {}, &db) {
        SelectionSQL::Multiple(cols) => {
            assert_eq!(
                cols,
                vec![
                    Column::Physical(cid(0, 0)),
                    Column::Function {
                        function_name: "upper".to_string(),
                        column_id: cid(0, 1),
                    },
                    Column::Constant("concert".to_string()),
                ]
            );
        }
        other => panic!("unexpected selection: {other:?}"),
    }
}

#[test]
fn json_selection_with_one_cardinality_is_a_bare_object() {
    let db = database();
    let selection = Selection::Json(
        vec![aliased("id", SelectionElement::Physical(cid(0, 0)))],
        SelectionCardinality::One,
    );
    match selection.to_sql(&Postgres {}, &db) {
        SelectionSQL::Single(Column::JsonObject(elems)) => {
            assert_eq!(elems, vec![("id".to_string(), Column::Physical(cid(0, 0)))]);
        }
        other => panic!("unexpected selection: {other:?}"),
    }
}

#[test]
fn json_selection_with_many_cardinality_is_aggregated() {
    let db = database();
    let selection = Selection::Json(
        vec![aliased("id", SelectionElement::Physical(cid(0, 0)))],
        SelectionCardinality::Many,
    );
    match selection.to_sql(&Postgres {}, &db) {
        SelectionSQL::Single(Column::JsonAgg(inner)) => match *inner {
            Column::JsonObject(elems) => {
                assert_eq!(elems.len(), 1);
                assert_eq!(elems[0].0, "id");
            }
            other => panic!("unexpected aggregate body: {other:?}"),
        },
        other => panic!("unexpected selection: {other:?}"),
    }
}

#[test]
fn nested_object_elements_lower_recursively() {
    let db = database();
    let element = SelectionElement::Object(vec![(
        "inner".to_string(),
        SelectionElement::Physical(cid(0, 1)),
    )]);
    let column = element.to_sql(&Postgres {}, &db);
    assert_eq!(
        column,
        Column::JsonObject(vec![("inner".to_string(), Column::Physical(cid(0, 1)))])
    );
}

#[test]
fn selection_aggregate_wraps_single_results() {
    let db = database();
    let json = Selection::Json(
        vec![aliased("id", SelectionElement::Physical(cid(0, 0)))],
        SelectionCardinality::One,
    );
    let cols = json.selection_aggregate(&Postgres {}, &db);
    assert_eq!(cols.len(), 1);

    let flat = Selection::Flat(vec![
        aliased("a", SelectionElement::Physical(cid(0, 0))),
        aliased("b", SelectionElement::Physical(cid(0, 1))),
    ]);
    let cols = flat.selection_aggregate(&Postgres {}, &db);
    assert_eq!(cols.len(), 2);
}
