//! Decisions behind a desktop wrapper for WhatsApp Web: which links stay in
//! the embedded webview and which go to the system browser, what the tray
//! menu shows and does, and how the main window is shown, hidden and titled.

pub mod commands;
pub mod links;
pub mod text;
pub mod url_parts;
pub mod window;
