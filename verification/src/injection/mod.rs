pub mod plugin;
pub mod theme;
pub mod client_mod;
pub mod injection_runner;
