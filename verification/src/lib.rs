//! Data-access core of a declarative backend generator.
//!
//! The crate models a physical database schema (tables, columns, constraints),
//! compiles abstract, relation-agnostic descriptions of operations into
//! concrete SQL statement trees, and computes ordered schema-change operations
//! between two schema snapshots.

pub mod column_spec;
pub mod constraint;
pub mod dbutils;
pub mod issue;
pub mod model;
pub mod op;
pub mod order_by;
pub mod order_by_mapper;
pub mod schema_spec;
pub mod selection;
pub mod table_spec;
pub mod text;
pub mod update;
