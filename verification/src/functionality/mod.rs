pub mod cache;
pub mod extension;
pub mod hotkeys;
pub mod keyboard;
pub mod menu;
pub mod rpc;
pub mod streamer_mode;
pub mod tray;
pub mod window;
