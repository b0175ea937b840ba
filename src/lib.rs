//! Request handling behind two storage ports: a key-value store and a blob
//! store, with in-memory doubles of both.

pub mod string_map;
pub mod ports;
pub mod mocks;
pub mod models;
pub mod render;
pub mod service;
