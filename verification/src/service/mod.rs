pub mod delivery;
pub mod delivery_service;
pub mod mapper;
