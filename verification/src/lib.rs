//! Jotlet: the verified core of a sticky-notes application.

pub mod application;
pub mod config;
pub mod database;
pub mod models;
pub mod services;
pub mod text;
pub mod widgets;
pub mod windows;
