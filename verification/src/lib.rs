//! Logic of two workspace panels: a Docker resource browser and an explorer
//! for SQL-over-HTTP hosts (host list, schema/table tree, paged table data,
//! DDL text and HTML export).
pub mod text;
pub mod keyed;
pub mod models;
pub mod json;
pub mod sql;
pub mod html;
pub mod explorer;
pub mod table_view;
pub mod docker;
