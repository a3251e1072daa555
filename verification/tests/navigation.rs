use level_frontend::keys::{
    chips_key, cycle_down, cycle_up, nullable_select_key, select_key, KEY_BACKSPACE, KEY_DOWN,
    KEY_ENTER, KEY_ESCAPE, KEY_SPACE, KEY_UP,
};
use level_frontend::stepper::{stepper_view, StepperForward, StepperState, StepperView};
use level_frontend::controls::{dialog_close, selected_option, tab_click, tab_correction, DialogCloseSource};

#[test]
fn cycling_wraps_around() {
    assert_eq!(cycle_up(None, 4), Some(3));
    assert_eq!(cycle_up(Some(0), 4), Some(3));
    assert_eq!(cycle_up(Some(2), 4), Some(1));
    assert_eq!(cycle_down(None, 4), Some(0));
    assert_eq!(cycle_down(Some(3), 4), Some(0));
    assert_eq!(cycle_down(cycle_up(Some(2), 4), 4), Some(2));
}

#[test]
fn select_keys() {
    let up = select_key(true, None, 3, KEY_UP);
    assert_eq!(up.selecting, Some(2));
    assert!(up.prevent_default);
    assert_eq!(up.chosen, None);
    let enter = select_key(true, Some(1), 3, KEY_ENTER);
    assert_eq!(enter.chosen, Some(1));
    assert!(enter.close);
    let space_none = select_key(true, None, 3, KEY_SPACE);
    assert_eq!(space_none.chosen, None);
    assert!(!space_none.close);
    assert!(select_key(true, Some(1), 3, KEY_ESCAPE).close);
    assert!(select_key(true, Some(1), 3, KEY_BACKSPACE).close);
    let closed = select_key(false, Some(1), 3, KEY_DOWN);
    assert_eq!(closed.selecting, Some(1));
    assert!(!closed.prevent_default);
    let empty = select_key(true, None, 0, KEY_DOWN);
    assert_eq!(empty.selecting, None);
    assert!(empty.prevent_default);
}

#[test]
fn nullable_select_keys() {
    assert_eq!(nullable_select_key(true, None, 3, KEY_DOWN).selecting, Some(3));
    assert_eq!(nullable_select_key(true, None, 3, KEY_UP).selecting, Some(2));
    assert_eq!(nullable_select_key(true, Some(3), 3, KEY_DOWN).selecting, Some(0));
    assert_eq!(nullable_select_key(true, Some(0), 3, KEY_UP).selecting, Some(3));
    assert_eq!(nullable_select_key(true, None, 0, KEY_UP).selecting, Some(0));
    assert_eq!(nullable_select_key(true, Some(3), 3, KEY_ENTER).chosen, Some(None));
    assert_eq!(nullable_select_key(true, Some(1), 3, KEY_ENTER).chosen, Some(Some(1)));
}

#[test]
fn chips_keys() {
    let possible = vec![4, 7, 9];
    let r = chips_key(true, vec![1], false, &possible, Some(1), KEY_ENTER);
    assert_eq!(r.chips, vec![1, 7]);
    assert_eq!(r.selecting, None);
    assert!(r.clear_text);
    let r = chips_key(true, vec![1], false, &possible, None, KEY_ENTER);
    assert_eq!(r.chips, vec![1, 4]);
    let r = chips_key(true, vec![1, 2], true, &possible, None, KEY_BACKSPACE);
    assert_eq!(r.chips, vec![1]);
    let r = chips_key(true, vec![1, 2], false, &possible, None, KEY_BACKSPACE);
    assert_eq!(r.chips, vec![1, 2]);
    let r = chips_key(true, vec![], true, &possible, None, KEY_UP);
    assert_eq!(r.selecting, Some(2));
    assert!(chips_key(true, vec![], true, &possible, None, KEY_ESCAPE).close);
    let r = chips_key(true, vec![], true, &vec![], None, KEY_ENTER);
    assert!(r.chips.is_empty());
    assert!(!r.prevent_default);
}

#[test]
fn stepper_moves() {
    let s = StepperState::default();
    assert_eq!(s, StepperState::InProgress(0));
    assert_eq!(s.prev(), StepperState::InProgress(0));
    assert_eq!(s.next(), StepperState::InProgress(1));
    assert_eq!(s.next().prev(), s);
    assert_eq!(s.finish(), StepperState::Complete);
    assert_eq!(StepperState::Complete.next(), StepperState::Complete);
    assert_eq!(s.step(), Some(0));
    assert_eq!(StepperState::Complete.step(), None);
    assert!(s.in_progress());
    assert!(StepperState::Complete.complete());
}

#[test]
fn stepper_views() {
    assert_eq!(
        stepper_view(StepperState::InProgress(0), 3),
        StepperView::Step { step: 0, back: false, forward: StepperForward::Next }
    );
    assert_eq!(
        stepper_view(StepperState::InProgress(2), 3),
        StepperView::Step { step: 2, back: true, forward: StepperForward::Finish }
    );
    assert_eq!(stepper_view(StepperState::InProgress(3), 3), StepperView::AutoFinish);
    assert_eq!(stepper_view(StepperState::Complete, 3), StepperView::Hidden);
}

#[test]
fn tabs_and_dialogs() {
    assert_eq!(tab_correction(1, 3), None);
    assert_eq!(tab_correction(7, 3), Some(1));
    assert_eq!(tab_click(0, 2, false), 2);
    assert_eq!(tab_click(0, 2, true), 0);
    assert_eq!(dialog_close(DialogCloseSource::OkButton, false), Some(true));
    assert_eq!(dialog_close(DialogCloseSource::CancelButton, true), Some(false));
    assert_eq!(dialog_close(DialogCloseSource::CloseButton, true), Some(false));
    assert_eq!(dialog_close(DialogCloseSource::Backdrop, true), None);
    assert_eq!(dialog_close(DialogCloseSource::Backdrop, false), Some(false));
    let options = vec!["a".to_string(), "b".to_string()];
    assert_eq!(selected_option(&options, Some(1)), Some(&"b".to_string()));
    assert_eq!(selected_option(&options, Some(2)), None);
    assert_eq!(selected_option(&options, None), None);
}

#[test]
fn highlight_stays_on_options() {
    let mut selecting = None;
    for key in [KEY_DOWN, KEY_DOWN, KEY_DOWN, KEY_DOWN, KEY_UP, KEY_UP, KEY_UP, KEY_UP, KEY_UP] {
        selecting = select_key(true, selecting, 3, key).selecting;
        assert!(selecting.unwrap() < 3);
    }
    let mut nullable = None;
    for key in [KEY_UP, KEY_UP, KEY_UP, KEY_UP, KEY_DOWN, KEY_DOWN, KEY_DOWN] {
        nullable = nullable_select_key(true, nullable, 2, key).selecting;
        assert!(nullable.unwrap() <= 2);
    }
    assert_eq!(nullable_select_key(true, Some(2), 2, KEY_ENTER).chosen, Some(None));
    let offered = vec![4, 1, 6];
    let mut chip_highlight = None;
    for key in [KEY_UP, KEY_UP, KEY_DOWN, KEY_DOWN, KEY_DOWN] {
        chip_highlight = chips_key(true, vec![0], true, &offered, chip_highlight, key).selecting;
        assert!(chip_highlight.unwrap() < offered.len());
    }
    let added = chips_key(true, vec![0], true, &offered, chip_highlight, KEY_ENTER);
    assert_eq!(added.chips.len(), 2);
    assert!(offered.contains(added.chips.last().unwrap()));
}
