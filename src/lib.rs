pub mod app;
pub mod history;
pub mod watcher;
