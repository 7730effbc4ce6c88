//! Abstract representation of update statements, including nested create,
//! update and delete operations on related tables.
//!
//! An update may carry nested operations, supporting updates of a tree of
//! entities rooted at one table: while updating a parent row, a child row
//! can be added, changed or removed in the same operation. A nested
//! operation's implicit predicate always includes the equality between the
//! child table's foreign-key column and the parent row's identity, in
//! addition to any user-supplied predicate.

use vstd::prelude::*;

use crate::order_by::{ColumnId, ColumnPath};
use crate::selection::{AbstractSelect, Column};

verus! {

/// An abstract predicate over column paths and literals.
#[derive(Debug, PartialEq)]
pub enum AbstractPredicate {
    True,
    Eq(ColumnPath, ColumnPath),
    And(Box<AbstractPredicate>, Box<AbstractPredicate>),
}

/// The relation that ties a nested operation's table to its parent row: the
/// foreign-key column on the child table, and the child table itself.
#[derive(Clone, Copy, Debug, PartialEq, Eq)]
pub struct NestedElementRelation {
    pub column_id: ColumnId,
    pub table_id: usize,
}

/// Abstract representation of an update statement.
#[derive(Debug, PartialEq)]
pub struct AbstractUpdate {
    /// The table to update.
    pub table_id: usize,
    /// The predicate selecting the rows to update.
    pub predicate: AbstractPredicate,
    /// The columns to update and their new values.
    pub column_values: Vec<(ColumnId, Column)>,
    /// Nested updates of rows related to the updated row.
    pub nested_updates: Vec<NestedAbstractUpdate>,
    /// Nested inserts of rows related to the updated row.
    pub nested_inserts: Vec<NestedAbstractInsert>,
    /// Nested deletes of rows related to the updated row.
    pub nested_deletes: Vec<NestedAbstractDelete>,
    /// The selection to return.
    pub selection: AbstractSelect,
}

/// A nested update: the relation to the parent table, and the update to
/// apply to the related table.
#[derive(Debug, PartialEq)]
pub struct NestedAbstractUpdate {
    pub relation: NestedElementRelation,
    pub update: AbstractUpdate,
}

/// A nested insert: the relation to the parent table, and the insert to
/// apply to the related table.
#[derive(Debug, PartialEq)]
pub struct NestedAbstractInsert {
    pub relation: NestedElementRelation,
    pub insert: AbstractInsert,
}

/// A nested delete: the relation to the parent table, and the delete to
/// apply to the related table.
#[derive(Debug, PartialEq)]
pub struct NestedAbstractDelete {
    pub relation: NestedElementRelation,
    pub delete: AbstractDelete,
}

/// Abstract representation of an insert statement.
#[derive(Debug, PartialEq)]
pub struct AbstractInsert {
    /// The table to insert into.
    pub table_id: usize,
    /// The columns and the values to insert.
    pub column_values: Vec<(ColumnId, Column)>,
}

/// Abstract representation of a delete statement.
#[derive(Debug, PartialEq)]
pub struct AbstractDelete {
    /// The table to delete from.
    pub table_id: usize,
    /// The predicate selecting the rows to delete.
    pub predicate: AbstractPredicate,
}

} // verus!
