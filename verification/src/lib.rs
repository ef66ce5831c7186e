//! The logic of a small desktop shell that lets the user pick one image file
//! and reports the choice in a status line.
//!
//! The shell is a state machine. `ImageVectoriser::update` takes a `Message`
//! and answers with a `Command` for the caller, who owns the window and the
//! event loop; `ImageVectoriser::view` describes what the window shows.

pub mod dialog;
pub mod laws;
pub mod message;
pub mod path;
pub mod screen;
pub mod shell;

pub use message::{Command, Message};
pub use screen::{Alignment, Extent, Screen};
pub use shell::ImageVectoriser;
