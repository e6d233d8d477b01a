pub mod auth;
pub mod category;
pub mod todo;
pub mod user;
