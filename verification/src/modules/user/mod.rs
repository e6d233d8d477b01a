pub mod dto;
pub mod entities;
pub mod password;
pub mod repository;
pub mod service;
