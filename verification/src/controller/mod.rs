pub mod delivery_controller;
pub mod dto;
