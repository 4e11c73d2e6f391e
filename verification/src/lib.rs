pub mod plugin;
pub mod project;
pub mod trusted;
