//! A terminal ticket viewer: the session engine, its load-once ticket
//! repository, and the value types they share.

pub mod level;
pub mod status;
pub mod text;
pub mod ticket;
pub mod timestamp;
pub mod store;
pub mod repository;
pub mod session;
pub mod controller;
pub mod presenter;
