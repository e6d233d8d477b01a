pub mod dto;
pub mod entities;
pub mod repository;
pub mod service;
