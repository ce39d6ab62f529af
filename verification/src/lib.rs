//! Verified core of the storage-controller assistant: the state of each
//! screen, what a user action changes in it, what gets logged and what is
//! sent to the model backend.

pub mod text;
pub mod log;
pub mod chat;
pub mod file_chat;
pub mod fine_tune;
pub mod navigation;
pub mod dashboard;
