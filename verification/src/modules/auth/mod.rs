pub mod dto;
pub mod guard;
pub mod jwt;
pub mod service;
