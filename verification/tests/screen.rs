use std::path::PathBuf;

use vectoriser::{Alignment, Extent, ImageVectoriser, Message};

#[test]
fn first_frame_shows_the_button_and_the_initial_status() {
    let shell = ImageVectoriser::default();
    let screen = shell.view();
    assert_eq!(screen.button_label, "Select Image");
    assert!(matches!(screen.on_press, Message::OpenFilePicker));
    assert_eq!(screen.status, "No image selected");
}

#[test]
fn frame_is_a_centred_column_that_fills_the_window() {
    let screen = ImageVectoriser::default().view();
    assert_eq!(screen.spacing, 20);
    assert_eq!(screen.width, Extent::Fill);
    assert_eq!(screen.height, Extent::Fill);
    assert_eq!(screen.alignment, Alignment::Center);
}

#[test]
fn frame_follows_the_status_line() {
    let mut shell = ImageVectoriser::default();
    let _ = shell.update(Message::FileSelected(Some(PathBuf::from("/tmp/a.png"))));
    let screen = shell.view();
    assert_eq!(screen.button_label, "Select Image");
    assert!(matches!(screen.on_press, Message::OpenFilePicker));
    assert_eq!(screen.status, "Selected: /tmp/a.png");
    assert_eq!(screen.status, shell.status_message());

    let _ = shell.update(Message::FileSelected(None));
    assert_eq!(shell.view().status, "No file selected");
}

#[test]
fn viewing_changes_nothing() {
    let mut shell = ImageVectoriser::default();
    let _ = shell.update(Message::FileSelected(Some(PathBuf::from("/tmp/a.png"))));
    let _ = shell.view();
    let _ = shell.view();
    assert_eq!(shell.selected_image(), Some(&PathBuf::from("/tmp/a.png")));
    assert_eq!(shell.status_message(), "Selected: /tmp/a.png");
}
