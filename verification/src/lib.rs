//! Verified core of the Dorion desktop client: its configuration, the
//! choices it makes on events, and the text processing of themes, plugins
//! and URLs.
pub mod args;
pub mod config;
pub mod functionality;
pub mod gpu;
pub mod injection;
pub mod launch;
pub mod platform;
pub mod processors;
pub mod profiles;
pub mod proxy_server;
pub mod release;
pub mod text;
pub mod updater;
pub mod util;
pub mod window;
