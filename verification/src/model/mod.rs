pub mod dto;
pub mod entity;
