//! Converts MySQL query results into JSON values, one mapping from column
//! name to value per row.
pub mod json;
pub mod table;
pub mod decode;
pub mod row_map;
pub mod mysql;
pub mod laws;
