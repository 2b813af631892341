pub mod bot;
pub mod file;
pub mod group;
pub mod message;
pub mod user;
