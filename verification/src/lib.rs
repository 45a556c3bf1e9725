pub mod app;
pub mod error;
pub mod manager;
pub mod memory;
pub mod seq_ext;
pub mod sqllite;
pub mod task;
pub mod text;
