pub mod migrations;
pub mod models;
