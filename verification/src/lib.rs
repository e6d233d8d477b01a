pub mod database;
pub mod error;
pub mod modules;
pub mod text;
pub mod validation;
