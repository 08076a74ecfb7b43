pub mod delivery;
pub mod entity;
pub mod outbox;
pub mod result;
