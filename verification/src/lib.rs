//! Read-side logic of a tournament statistics site: SQL text for each query,
//! decoding of result rows into records, and the decisions the web pages make
//! from query results.

pub mod cells;
pub mod decimal;
pub mod decode;
pub mod pages;
pub mod queries;
pub mod records;
pub mod rows;
pub mod sqlite;
pub mod store;
