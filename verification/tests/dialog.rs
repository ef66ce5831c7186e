use vectoriser::dialog::image_dialog;
use vectoriser::{Command, ImageVectoriser, Message};

fn occurrences(text: &str, part: &str) -> usize {
    text.matches(part).count()
}

#[test]
fn image_dialog_has_the_title() {
    let shown = format!("{:?}", image_dialog());
    assert!(shown.contains("title: Some(\"Select an image\")"), "{}", shown);
}

#[test]
fn image_dialog_has_one_filter_for_three_extensions() {
    let shown = format!("{:?}", image_dialog());
    assert!(
        shown.contains(
            "filters: [Filter { name: \"Images\", extensions: [\"jpg\", \"jpeg\", \"png\"] }]"
        ),
        "{}",
        shown
    );
    assert_eq!(occurrences(&shown, "Filter {"), 1);
}

#[test]
fn image_dialog_sets_nothing_else() {
    let shown = format!("{:?}", image_dialog());
    assert!(shown.contains("starting_directory: None"), "{}", shown);
    assert!(shown.contains("file_name: None"), "{}", shown);
}

#[test]
fn button_press_asks_for_the_image_dialog() {
    let mut shell = ImageVectoriser::default();
    match shell.update(Message::OpenFilePicker) {
        Command::PickFile(dialog) => {
            assert_eq!(format!("{:?}", dialog), format!("{:?}", image_dialog()));
        }
        Command::Nothing => panic!("a button press asks for a dialog"),
    }
}
