pub mod filter;
pub mod chat_view;
pub mod chat_controller;
