pub mod url;
pub mod args;
pub mod paths;
pub mod window_helpers;
pub mod color;
pub mod notifications;
pub mod logger;
pub mod process;
pub mod helpers;
