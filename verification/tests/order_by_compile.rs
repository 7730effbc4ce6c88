//! Tests of order-by argument compilation and the abstract-to-concrete
//! order-by transform.

use exo_sql::order_by::{
    AbstractOrderBy, ColumnId, ColumnPath, ColumnPathLink, Ordering, Postgres,
};
use exo_sql::order_by_mapper::{
    ordering, OrderByParameter, OrderByParameterInput, OrderByParameterType,
    OrderByParameterTypeKind, PostgresExecutionError, PostgresSubsystem, Val,
};

fn column_id(table_index: usize, column_index: usize) -> ColumnId {
    ColumnId { table_index, column_index }
}

fn leaf_link(table_index: usize, column_index: usize) -> ColumnPathLink {
    ColumnPathLink { self_column: column_id(table_index, column_index), linked_column: None }
}

fn relation_link(table_index: usize, column_index: usize, to: ColumnId) -> ColumnPathLink {
    ColumnPathLink {
        self_column: column_id(table_index, column_index),
        linked_column: Some(to),
    }
}

/// Type 0: primitive ordering type. Type 1: `VenueOrdering { name }`.
/// Type 2: `ConcertOrdering { title, price, venue }`.
fn subsystem() -> PostgresSubsystem {
    let primitive = OrderByParameterType {
        name: "Ordering".to_string(),
        kind: OrderByParameterTypeKind::Primitive,
    };
    let venue_ordering = OrderByParameterType {
        name: "VenueOrdering".to_string(),
        kind: OrderByParameterTypeKind::Composite {
            parameters: vec![OrderByParameter {
                name: "name".to_string(),
                type_id: 0,
                column_path_link: leaf_link(1, 1),
            }],
        },
    };
    let concert_ordering = OrderByParameterType {
        name: "ConcertOrdering".to_string(),
        kind: OrderByParameterTypeKind::Composite {
            parameters: vec![
                OrderByParameter {
                    name: "title".to_string(),
                    type_id: 0,
                    column_path_link: leaf_link(0, 1),
                },
                OrderByParameter {
                    name: "price".to_string(),
                    type_id: 0,
                    column_path_link: leaf_link(0, 2),
                },
                OrderByParameter {
                    name: "venue".to_string(),
                    type_id: 1,
                    column_path_link: relation_link(0, 3, column_id(1, 0)),
                },
            ],
        },
    };
    PostgresSubsystem { order_by_types: vec![primitive, venue_ordering, concert_ordering] }
}

fn root_input() -> OrderByParameterInput {
    OrderByParameterInput {
        param: OrderByParameter {
            name: "orderBy".to_string(),
            type_id: 2,
            column_path_link: leaf_link(0, 0),
        },
        parent_column_path: None,
    }
}

fn obj(fields: Vec<(&str, Val)>) -> Val {
    Val::Object(fields.into_iter().map(|(n, v)| (n.to_string(), v)).collect())
}

#[test]
fn object_fields_compile_in_declaration_order() {
    let sub = subsystem();
    let arg = obj(vec![
        ("title", Val::Enum("ASC".to_string())),
        ("price", Val::Enum("DESC".to_string())),
    ]);
    let ob = root_input().to_sql(&arg, &sub).unwrap();
    assert_eq!(
        ob,
        AbstractOrderBy(vec![
            (ColumnPath::Physical(vec![leaf_link(0, 1)]), Ordering::Asc),
            (ColumnPath::Physical(vec![leaf_link(0, 2)]), Ordering::Desc),
        ])
    );
}

#[test]
fn nested_object_extends_the_column_path() {
    let sub = subsystem();
    let arg = obj(vec![("venue", obj(vec![("name", Val::Enum("ASC".to_string()))]))]);
    let ob = root_input().to_sql(&arg, &sub).unwrap();
    assert_eq!(
        ob,
        AbstractOrderBy(vec![(
            ColumnPath::Physical(vec![relation_link(0, 3, column_id(1, 0)), leaf_link(1, 1)]),
            Ordering::Asc,
        )])
    );
}

#[test]
fn list_elements_compile_in_list_order() {
    let sub = subsystem();
    let arg = Val::List(vec![
        obj(vec![("title", Val::Enum("ASC".to_string()))]),
        obj(vec![("price", Val::Enum("DESC".to_string()))]),
    ]);
    let ob = root_input().to_sql(&arg, &sub).unwrap();
    assert_eq!(
        ob,
        AbstractOrderBy(vec![
            (ColumnPath::Physical(vec![leaf_link(0, 1)]), Ordering::Asc),
            (ColumnPath::Physical(vec![leaf_link(0, 2)]), Ordering::Desc),
        ])
    );
}

#[test]
fn string_ordering_tokens_are_accepted() {
    let sub = subsystem();
    let arg = obj(vec![("title", Val::Str("DESC".to_string()))]);
    let ob = root_input().to_sql(&arg, &sub).unwrap();
    assert_eq!(ob.0[0].1, Ordering::Desc);
}

#[test]
fn only_asc_and_desc_succeed() {
    assert_eq!(ordering(&Val::Enum("ASC".to_string())), Ok(Ordering::Asc));
    assert_eq!(ordering(&Val::Enum("DESC".to_string())), Ok(Ordering::Desc));
    assert_eq!(ordering(&Val::Str("ASC".to_string())), Ok(Ordering::Asc));
    assert_eq!(ordering(&Val::Str("DESC".to_string())), Ok(Ordering::Desc));
    assert_eq!(
        ordering(&Val::Enum("asc".to_string())),
        Err(PostgresExecutionError::Generic(
            "Cannot match asc as valid ordering".to_string()
        ))
    );
    assert_eq!(
        ordering(&Val::Str("Desc".to_string())),
        Err(PostgresExecutionError::Generic(
            "Cannot match Desc as valid ordering".to_string()
        ))
    );
    assert_eq!(
        ordering(&Val::Number(1)),
        Err(PostgresExecutionError::Generic(
            "Unable to process ordering argument".to_string()
        ))
    );
}

#[test]
fn unknown_field_fails_validation() {
    let sub = subsystem();
    let arg = obj(vec![("no_such_field", Val::Enum("ASC".to_string()))]);
    let err = root_input().to_sql(&arg, &sub).unwrap_err();
    assert_eq!(
        err,
        PostgresExecutionError::Validation(
            "no_such_field".to_string(),
            "Invalid order by parameter".to_string()
        )
    );
}

#[test]
fn field_against_primitive_type_fails_validation() {
    let sub = subsystem();
    let input = OrderByParameterInput {
        param: OrderByParameter {
            name: "orderBy".to_string(),
            type_id: 0,
            column_path_link: leaf_link(0, 0),
        },
        parent_column_path: None,
    };
    let arg = obj(vec![("title", Val::Enum("ASC".to_string()))]);
    let err = input.to_sql(&arg, &sub).unwrap_err();
    assert_eq!(
        err,
        PostgresExecutionError::Validation(
            "title".to_string(),
            "Invalid primitive order by parameter".to_string()
        )
    );
}

#[test]
fn bad_token_aborts_compilation() {
    let sub = subsystem();
    let arg = obj(vec![
        ("title", Val::Enum("ASC".to_string())),
        ("price", Val::Enum("UP".to_string())),
    ]);
    let err = root_input().to_sql(&arg, &sub).unwrap_err();
    assert_eq!(
        err,
        PostgresExecutionError::Generic("Cannot match UP as valid ordering".to_string())
    );
}

#[test]
fn non_object_non_list_shape_is_rejected() {
    let sub = subsystem();
    let err = root_input().to_sql(&Val::Number(3), &sub).unwrap_err();
    assert_eq!(
        err,
        PostgresExecutionError::Generic("Invalid order by argument shape".to_string())
    );
}

#[test]
fn to_order_by_takes_leaf_columns() {
    let ob = AbstractOrderBy(vec![
        (
            ColumnPath::Physical(vec![relation_link(0, 3, column_id(1, 0)), leaf_link(1, 1)]),
            Ordering::Asc,
        ),
        (ColumnPath::Physical(vec![leaf_link(0, 2)]), Ordering::Desc),
    ]);
    let concrete = Postgres {}.to_order_by(&ob);
    assert_eq!(concrete.0.len(), 2);
    assert_eq!(concrete.0[0].column, column_id(1, 1));
    assert_eq!(concrete.0[0].ordering, Ordering::Asc);
    assert_eq!(concrete.0[1].column, column_id(0, 2));
    assert_eq!(concrete.0[1].ordering, Ordering::Desc);
}
