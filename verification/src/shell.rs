//! The state of the shell and its reaction to messages.

use std::path::PathBuf;
use vstd::prelude::*;
use vstd::string::StringExecFns;

use crate::dialog::image_dialog;
use crate::message::{answers, Command, Message};
use crate::path::{display_string, display_text};
use crate::screen::{frame, Alignment, Extent, Screen};

verus! {

/// The state of the shell as a mathematical value.
pub struct Model {
    /// The file that was picked last, if one ever was.
    pub selected: Option<PathBuf>,
    /// The status line.
    pub status: Seq<char>,
}

/// The status line before any dialog was closed.
pub open spec fn no_image_text() -> Seq<char> {
    "No image selected"@
}

/// The status line after a dialog was dismissed.
pub open spec fn no_file_text() -> Seq<char> {
    "No file selected"@
}

/// The status line for a picked file that is shown as `shown`.
pub open spec fn selected_text(shown: Seq<char>) -> Seq<char> {
    "Selected: "@ + shown
}

/// The state in which the shell starts.
pub open spec fn initial() -> Model {
    Model { selected: None, status: no_image_text() }
}

/// The state that follows `before` when `message` arrives.
///
/// A press of the button changes nothing. A picked file replaces the selected
/// one and is named in the status line. A dismissed dialog keeps the selected
/// file and only changes the status line.
pub open spec fn step(before: Model, message: Message) -> Model {
    match message {
        Message::OpenFilePicker => before,
        Message::FileSelected(Some(path)) => Model {
            selected: Some(path),
            status: selected_text(display_text(path)),
        },
        Message::FileSelected(None) => Model { selected: before.selected, status: no_file_text() },
    }
}

/// Whether the status line of `model` fits its selected file: it is the line
/// for a dismissed dialog, or the initial line with no file selected, or the
/// line that names the selected file.
pub open spec fn consistent(model: Model) -> bool {
    ||| model.status == no_file_text()
    ||| model.selected is None && model.status == no_image_text()
    ||| model.selected matches Some(path) && model.status == selected_text(display_text(path))
}

/// Builds the status line for a picked file that is shown as `shown`.
pub fn selected_message(shown: &str) -> (status: String)
    ensures
        status@ == selected_text(shown@),
{
    let mut status = "Selected: ".to_owned();
    status.append(shown);
    status
}

/// The shell: the selected image and the status line that reports on it.
pub struct ImageVectoriser {
    selected_image: Option<PathBuf>,
    status_message: String,
}

impl ImageVectoriser {
    /// The state as a mathematical value.
    pub closed spec fn model(&self) -> Model {
        Model { selected: self.selected_image, status: self.status_message@ }
    }

    /// Holds of every shell: the two fields are private, and no method lets
    /// the status line drift from the selected file.
    #[verifier::type_invariant]
    closed spec fn status_fits(&self) -> bool {
        consistent(self.model())
    }

    /// Starts the shell. There is nothing for the caller to do yet.
    pub fn new() -> (start: (Self, Command))
        ensures
            start.0.model() == initial(),
            start.1 is Nothing,
    {
        (ImageVectoriser::default(), Command::Nothing)
    }

    /// The title of the window.
    pub fn title(&self) -> (title: String)
        ensures
            title@ == "Rust Vectoriser"@,
    {
        "Rust Vectoriser".to_owned()
    }

    /// Handles `message` and says what the caller has to do next.
    ///
    /// The shell keeps no record of the dialogs that are open: every press of
    /// the button asks for another one, and every closed dialog is taken as it
    /// comes.
    pub fn update(&mut self, message: Message) -> (command: Command)
        ensures
            final(self).model() == step(old(self).model(), message),
            consistent(final(self).model()),
            answers(message, command),
    {
        proof {
            use_type_invariant(&*self);
        }
        match message {
            Message::OpenFilePicker => Command::PickFile(image_dialog()),
            Message::FileSelected(Some(path)) => {
                let shown = display_string(&path);
                let status = selected_message(shown.as_str());
                *self = ImageVectoriser { selected_image: Some(path), status_message: status };
                Command::Nothing
            },
            Message::FileSelected(None) => {
                self.status_message = "No file selected".to_owned();
                Command::Nothing
            },
        }
    }

    /// Lays out the user interface for the current state.
    pub fn view(&self) -> (screen: Screen)
        ensures
            screen@ == frame(self.model().status),
    {
        Screen {
            button_label: "Select Image".to_owned(),
            on_press: Message::OpenFilePicker,
            status: self.status_message.clone(),
            spacing: 20,
            width: Extent::Fill,
            height: Extent::Fill,
            alignment: Alignment::Center,
        }
    }

    /// The file that was picked last, if one ever was.
    pub fn selected_image(&self) -> (selected: Option<&PathBuf>)
        ensures
            match selected {
                Some(path) => self.model().selected == Some(*path),
                None => self.model().selected is None,
            },
    {
        self.selected_image.as_ref()
    }

    /// The status line. Whatever has happened to the shell, the line fits the
    /// selected file.
    pub fn status_message(&self) -> (status: &str)
        ensures
            status@ == self.model().status,
            consistent(self.model()),
    {
        proof {
            use_type_invariant(self);
        }
        self.status_message.as_str()
    }
}

impl Default for ImageVectoriser {
    /// The shell before any message: no image, and a status line that says so.
    fn default() -> (state: Self)
        ensures
            state.model() == initial(),
    {
        ImageVectoriser { selected_image: None, status_message: "No image selected".to_owned() }
    }
}

} // verus!
