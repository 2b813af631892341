pub mod interaction;
pub mod wait;
