//! A delivery service built on the transactional outbox pattern: a delivery and the
//! outbox message that announces it are written in one database transaction, so the
//! announcement is published exactly when the delivery exists.
//!
//! This crate holds the service's logic: the delivery model and its status life cycle,
//! the rows it stores and reads back, the outbox messages, the settings, the HTTP
//! answers, and the step-by-step course of creating a delivery.
pub mod clock;
pub mod config;
pub mod controller;
pub mod ids;
pub mod json;
pub mod kafka;
pub mod model;
pub mod postgres;
pub mod service;
pub mod text;
