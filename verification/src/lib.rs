//! Registration of tables as ordered collections.
//!
//! A table becomes an ordered collection when one of its columns is declared
//! to hold a fractional key and, optionally, some of its columns are declared
//! to partition its rows. This crate validates such a declaration, plans the
//! catalog records that persist it and writes the trigger that turns the
//! prepend and append sentinels of an insert into real keys.
//!
//! The crate performs no I/O. It produces statements and decides what to do
//! with the answers; the caller runs the statements against the engine.
//!
//! - [`collection`]: the declaration of an ordered collection.
//! - [`ident`]: the quoting of table and column names.
//! - [`statement`]: statements and the values bound to them.
//! - [`validator`]: the count that tells whether the table has the columns.
//! - [`catalog`]: the records that persist a declaration.
//! - [`trigger`]: the scoped queries and the trigger for prepends and appends.
//! - [`setup`]: the steps of a registration and what follows from each.
//! - [`error`]: the ways in which a registration fails.
//! - [`engine`]: what a registration leaves behind in the engine.
//! - [`placement`]: what the trigger does to the keys.

pub mod ident;
pub mod error;
pub mod collection;
pub mod statement;
pub mod validator;
pub mod trigger;
pub mod catalog;
pub mod setup;
pub mod engine;
pub mod placement;

pub use crate::catalog::record_schema_information;
pub use crate::collection::OrderedCollection;
pub use crate::error::SetupError;
pub use crate::placement::Intent;
pub use crate::setup::{as_ordered, Action, Event, Phase, Setup};
pub use crate::statement::{Binding, Statement};
pub use crate::trigger::{collection_max_select, collection_min_select, create_pend_trigger};
pub use crate::validator::{column_count_query, table_has_all_columns};
