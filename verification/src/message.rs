//! What happens to the shell, and what the shell asks for in return.

use rfd::FileDialog;
use std::path::PathBuf;
use vstd::prelude::*;

use crate::dialog::is_image_dialog;

verus! {

/// An event that the shell reacts to.
#[derive(Debug, Clone)]
pub enum Message {
    /// The user pressed the button that opens the file dialog.
    OpenFilePicker,
    /// A file dialog was closed, with the chosen file or, where the user
    /// dismissed it, with nothing.
    FileSelected(Option<PathBuf>),
}

/// What the caller has to do after the shell has handled a message.
#[derive(Debug)]
pub enum Command {
    /// Nothing.
    Nothing,
    /// Show the dialog, let the user pick one file, and hand the outcome back
    /// as `Message::FileSelected`.
    PickFile(FileDialog),
}

/// Whether `command` is the shell's answer to `message`: the image dialog for
/// a press of the button, nothing for a closed dialog.
pub open spec fn answers(message: Message, command: Command) -> bool {
    match message {
        Message::OpenFilePicker => command matches Command::PickFile(dialog) && is_image_dialog(
            dialog,
        ),
        Message::FileSelected(_) => command is Nothing,
    }
}

} // verus!
