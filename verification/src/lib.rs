pub mod application;
pub mod cache;
pub mod config;
pub mod datetime;
pub mod error;
pub mod keys;
pub mod proto;
pub mod service;
pub mod store;
pub mod text;
