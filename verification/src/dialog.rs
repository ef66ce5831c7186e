//! The native "open file" dialog that the shell asks for.
//!
//! The dialog is an `rfd::FileDialog`. The library only configures it; showing
//! it is left to the caller.

use rfd::FileDialog;
use vstd::prelude::*;

verus! {

/// `rfd::FileDialog`, the configuration of a native file dialog.
#[verifier::external_type_specification]
#[verifier::external_body]
pub struct ExFileDialog(rfd::FileDialog);

/// The title that a dialog was given, if any.
pub uninterp spec fn dialog_title(dialog: FileDialog) -> Option<Seq<char>>;

/// The filters of a dialog, in the order in which they were added. Each is a
/// display name and the file extensions that it lets through.
pub uninterp spec fn dialog_filters(dialog: FileDialog) -> Seq<(Seq<char>, Seq<Seq<char>>)>;

/// The text of each item of `items`.
pub open spec fn texts(items: Seq<&str>) -> Seq<Seq<char>> {
    items.map_values(|item: &str| item@)
}

/// Calls `rfd::FileDialog::new`.
///
/// Trusted: a new dialog has no title and no filter.
#[verifier::external_body]
pub(crate) fn new_dialog() -> (dialog: FileDialog)
    ensures
        dialog_title(dialog) is None,
        dialog_filters(dialog) == Seq::<(Seq<char>, Seq<Seq<char>>)>::empty(),
{
    FileDialog::new()
}

/// Calls `rfd::FileDialog::add_filter`.
///
/// Trusted: the filter is appended behind those the dialog already has, with
/// the name and the extensions as given, and the title stays.
#[verifier::external_body]
pub(crate) fn add_filter(dialog: FileDialog, name: &str, extensions: &[&str]) -> (added: FileDialog)
    ensures
        dialog_filters(added) == dialog_filters(dialog).push((name@, texts(extensions@))),
        dialog_title(added) == dialog_title(dialog),
{
    dialog.add_filter(name, extensions)
}

/// Calls `rfd::FileDialog::set_title`.
///
/// Trusted: the dialog gets the title, replacing an earlier one, and the
/// filters stay.
#[verifier::external_body]
pub(crate) fn set_title(dialog: FileDialog, title: &str) -> (titled: FileDialog)
    ensures
        dialog_title(titled) == Some(title@),
        dialog_filters(titled) == dialog_filters(dialog),
{
    dialog.set_title(title)
}

/// The title of the image dialog.
pub open spec fn image_dialog_title() -> Seq<char> {
    "Select an image"@
}

/// The name of the one filter of the image dialog.
pub open spec fn image_filter_name() -> Seq<char> {
    "Images"@
}

/// The extensions that the image filter lets through, in order.
pub open spec fn image_extensions() -> Seq<Seq<char>> {
    seq!["jpg"@, "jpeg"@, "png"@]
}

/// Whether `dialog` is configured as the image dialog: titled "Select an
/// image", with the single filter "Images" for `jpg`, `jpeg` and `png`.
pub open spec fn is_image_dialog(dialog: FileDialog) -> bool {
    &&& dialog_title(dialog) == Some(image_dialog_title())
    &&& dialog_filters(dialog) == seq![(image_filter_name(), image_extensions())]
}

/// Configures the dialog in which the user picks one image file.
pub fn image_dialog() -> (dialog: FileDialog)
    ensures
        is_image_dialog(dialog),
{
    let extensions: [&str; 3] = ["jpg", "jpeg", "png"];
    assert(texts(extensions@) =~= image_extensions());
    let filtered = add_filter(new_dialog(), "Images", extensions.as_slice());
    assert(dialog_filters(filtered) =~= seq![(image_filter_name(), image_extensions())]);
    set_title(filtered, "Select an image")
}

} // verus!
