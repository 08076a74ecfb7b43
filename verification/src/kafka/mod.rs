pub mod topics;
