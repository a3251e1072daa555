use vstd::prelude::*;

verus! {

/// The tab a tab group moves to when its selected tab does not exist: the
/// selection wrapped around the number of tabs. `None` when the selected
/// tab exists.
pub fn tab_correction(state: usize, num_tabs: usize) -> (r: Option<usize>)
    requires
        num_tabs > 0,
    ensures
        r == if state < num_tabs { None } else { Some((state % num_tabs) as usize) },
        r matches Some(t) ==> t < num_tabs,
{
    if state < num_tabs {
        None
    } else {
        Some(state % num_tabs)
    }
}

/// The tab selected after a tab is clicked: the clicked tab, unless it is
/// disabled.
pub fn tab_click(current: usize, clicked: usize, disabled: bool) -> (r: usize)
    ensures
        r == if disabled { current } else { clicked },
{
    if disabled { current } else { clicked }
}

/// What was clicked to close a dialog.
#[derive(Debug, Clone, Copy, PartialEq, Eq, Structural)]
pub enum DialogCloseSource {
    /// The close button in the header.
    CloseButton,
    /// The ok button.
    OkButton,
    /// The cancel button.
    CancelButton,
    /// The area around the dialog.
    Backdrop,
}

/// Whether a click closes the dialog, and with which result: `Some(true)`
/// when the ok button was clicked, `Some(false)` for the other ways of
/// closing, `None` when the dialog stays open (a click on the area around
/// the dialog while the pointer is over the dialog itself).
pub fn dialog_close(source: DialogCloseSource, pointer_in_dialog: bool) -> (r: Option<bool>)
    ensures
        r == match source {
            DialogCloseSource::OkButton => Some(true),
            DialogCloseSource::Backdrop => if pointer_in_dialog { None::<bool> } else { Some(false) },
            _ => Some(false),
        },
{
    match source {
        DialogCloseSource::CloseButton => Some(false),
        DialogCloseSource::OkButton => Some(true),
        DialogCloseSource::CancelButton => Some(false),
        DialogCloseSource::Backdrop => if pointer_in_dialog { None } else { Some(false) },
    }
}

/// The entry a selection designates (the option shown by a select, the
/// account or category chosen in a form): the entry at the selected index,
/// if there is one.
pub fn selected_option<T>(options: &Vec<T>, state: Option<usize>) -> (r: Option<&T>)
    ensures
        match state {
            Some(i) => if i < options@.len() { r == Some(&options@[i as int]) } else { r is None },
            None => r is None,
        },
{
    match state {
        Some(i) => if i < options.len() { Some(&options[i]) } else { None },
        None => None,
    }
}

} // verus!
