pub mod name_map;
pub mod query_definition;
pub mod translation;
