pub mod errors;
pub mod text;
pub mod source;
pub mod code_file;
pub mod entity;
pub mod repository;
pub mod dto;
pub mod usecases;
pub mod laws;
