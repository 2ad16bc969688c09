pub mod allow_connection_popup;
pub mod chat_input;
pub mod chat_panel;
pub mod command_popup;
