//! What the shell shows: a button above a status line.

use vstd::prelude::*;

use crate::message::Message;

verus! {

/// How much of the available room an element takes along one axis.
#[derive(Debug, Clone, Copy, PartialEq, Eq, Structural)]
pub enum Extent {
    /// As little as its content needs.
    Shrink,
    /// All there is.
    Fill,
}

/// Where content is placed within the room it has.
#[derive(Debug, Clone, Copy, PartialEq, Eq, Structural)]
pub enum Alignment {
    Start,
    Center,
    End,
}

/// One frame of the user interface: a button and, below it, a line of text.
#[derive(Debug)]
pub struct Screen {
    /// The label of the button.
    pub button_label: String,
    /// The message that a press of the button raises.
    pub on_press: Message,
    /// The status line. It is read-only.
    pub status: String,
    /// The gap between the button and the status line, in pixels.
    pub spacing: u16,
    /// The width of the column that holds the two elements.
    pub width: Extent,
    /// The height of that column.
    pub height: Extent,
    /// The placement of the two elements, on both axes.
    pub alignment: Alignment,
}

/// A `Screen` with its texts as sequences of characters.
pub struct ScreenView {
    pub button_label: Seq<char>,
    pub on_press: Message,
    pub status: Seq<char>,
    pub spacing: u16,
    pub width: Extent,
    pub height: Extent,
    pub alignment: Alignment,
}

impl View for Screen {
    type V = ScreenView;

    open spec fn view(&self) -> ScreenView {
        ScreenView {
            button_label: self.button_label@,
            on_press: self.on_press,
            status: self.status@,
            spacing: self.spacing,
            width: self.width,
            height: self.height,
            alignment: self.alignment,
        }
    }
}

/// The frame that shows `status`: the button "Select Image", which raises
/// `Message::OpenFilePicker`, and the status line 20 pixels below it, both
/// centred in a column that fills the window.
pub open spec fn frame(status: Seq<char>) -> ScreenView {
    ScreenView {
        button_label: "Select Image"@,
        on_press: Message::OpenFilePicker,
        status,
        spacing: 20,
        width: Extent::Fill,
        height: Extent::Fill,
        alignment: Alignment::Center,
    }
}

} // verus!
