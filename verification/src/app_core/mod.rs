pub mod chat;
pub mod settings;
pub mod updater;
