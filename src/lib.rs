mod database;

pub use database::{join_path, RuntimeLock};
