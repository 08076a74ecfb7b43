pub mod delivery;
pub mod mapper;
pub mod outbox;
