//! Persistence core of a restaurant table-ordering backend: SQL building,
//! row mapping, transaction control and the add / fetch / remove outcomes.
pub mod errors;
pub mod fetch_table_items;
pub mod links;
pub mod model;
pub mod persist_table_items;
pub mod remove_table_items;
pub mod text;
pub mod transaction;
pub mod values;
