//! Session state of a window-tray utility: an in-memory registry of windows
//! put away into the tray, the rules of the durable workspace table, and
//! the small services offered beside them (text encryption under a caller's
//! key, placeholder assistant hooks).

pub mod assist;
pub mod crypto;
pub mod errors;
pub mod tray;
pub mod window;
pub mod workspace;
