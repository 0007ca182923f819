//! The relay server: what it stores and how it answers its clients.

pub mod config;
pub mod handler;
pub mod db;
pub mod laws;
pub mod step_laws;
