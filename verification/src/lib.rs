pub mod ai;
pub mod calendar;
pub mod config;
pub mod crypto;
pub mod db;
pub mod engines;
pub mod error;
pub mod ipc;
pub mod memory;
pub mod observability;
pub mod sync;
pub mod text;
