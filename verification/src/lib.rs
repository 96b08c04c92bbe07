pub mod config;
pub mod dispatch;
pub mod launch;
pub mod timer;
