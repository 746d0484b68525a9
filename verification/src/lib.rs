pub mod debounce;
pub mod file_io;
pub mod formatting;
pub mod idle_monitoring;
pub mod messages;
pub mod widget;
