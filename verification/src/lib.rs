//! The decisions of a Telegram client's proxy settings and chat sidebar,
//! apart from the GTK widgets that show them.
pub mod proxy_handle_dialog;
pub mod proxy_row;
pub mod proxy_window;
pub mod telegram;
pub mod text;
pub mod sidebar;
