pub mod keys;
pub mod text_area;
pub mod text;
pub mod tokens;
pub mod chats;
pub mod app;
pub mod layout;
pub mod history;
