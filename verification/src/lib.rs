//! Srotas Desk: the verified core of an offline billing and inventory
//! desk for a single shop counter.

pub mod text;
pub mod money;
pub mod time;
pub mod license;
pub mod pin;
pub mod settings;
pub mod repo;
pub mod models;
pub mod pdf;
pub mod ui;
