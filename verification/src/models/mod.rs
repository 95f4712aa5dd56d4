pub mod audio;
pub mod date;
pub mod event;
pub mod message;
pub mod news;
pub mod provider;
pub mod weather;
