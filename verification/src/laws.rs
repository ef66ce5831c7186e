//! What holds of the shell's reaction to messages, whatever has happened to it before.

use std::path::PathBuf;
use vstd::prelude::*;

use crate::dialog::{dialog_filters, dialog_title};
use crate::message::{answers, Command, Message};
use crate::path::display_text;
use crate::shell::{consistent, initial, step, Model};

verus! {

/// The state after the messages of `messages` have arrived at `start`, one
/// after the other.
pub open spec fn run(start: Model, messages: Seq<Message>) -> Model
    decreases messages.len(),
{
    if messages.len() == 0 {
        start
    } else {
        step(run(start, messages.drop_last()), messages.last())
    }
}

/// A picked file becomes the selected file, and the status line names it, in
/// every state.
pub proof fn picked_file_is_selected(before: Model, path: PathBuf)
    ensures
        step(before, Message::FileSelected(Some(path))).selected == Some(path),
        step(before, Message::FileSelected(Some(path))).status == "Selected: "@ + display_text(
            path,
        ),
{
}

/// A dismissed dialog leaves the selected file as it was and sets the status
/// line to "No file selected".
pub proof fn dismissal_keeps_selection(before: Model)
    ensures
        step(before, Message::FileSelected(None)).selected == before.selected,
        step(before, Message::FileSelected(None)).status == "No file selected"@,
{
}

/// Picking a file twice in a row leaves the shell as picking it once does.
pub proof fn picking_twice_is_picking_once(before: Model, path: PathBuf)
    ensures
        step(step(before, Message::FileSelected(Some(path))), Message::FileSelected(Some(path)))
            == step(before, Message::FileSelected(Some(path))),
{
}

/// A press of the button changes nothing in the state, and is answered with
/// one dialog: titled "Select an image", with the single filter "Images"
/// for exactly `jpg`, `jpeg` and `png`.
pub proof fn button_opens_image_dialog(before: Model, command: Command)
    requires
        answers(Message::OpenFilePicker, command),
    ensures
        step(before, Message::OpenFilePicker) == before,
        command is PickFile,
        dialog_title(command->PickFile_0) == Some("Select an image"@),
        dialog_filters(command->PickFile_0).len() == 1,
        dialog_filters(command->PickFile_0)[0].0 == "Images"@,
        dialog_filters(command->PickFile_0)[0].1 == seq!["jpg"@, "jpeg"@, "png"@],
{
}

/// A closed dialog opens no other one.
pub proof fn closed_dialog_asks_nothing(choice: Option<PathBuf>, command: Command)
    requires
        answers(Message::FileSelected(choice), command),
    ensures
        command is Nothing,
{
}

/// The status line fits the selected file at the start.
pub proof fn initial_state_is_consistent()
    ensures
        consistent(initial()),
{
}

/// A message keeps the status line fitting the selected file.
pub proof fn step_keeps_consistency(before: Model, message: Message)
    requires
        consistent(before),
    ensures
        consistent(step(before, message)),
{
}

/// The status line fits the selected file after any messages, in any order.
pub proof fn every_run_is_consistent(messages: Seq<Message>)
    ensures
        consistent(run(initial(), messages)),
    decreases messages.len(),
{
    if messages.len() > 0 {
        every_run_is_consistent(messages.drop_last());
        step_keeps_consistency(run(initial(), messages.drop_last()), messages.last());
    }
}

} // verus!
