use level_frontend::async_state::{
    handle_command_result, handle_result, quote_text, HandledError, UnexpectedErrorReaction, CommandError, PreviousUseAsyncState, UseAsyncState, UseCommandState, UseResultError,
};
use level_frontend::editor::{ListEditor, SubcategoryEditor};
use level_frontend::views::{
    batch_status, creation_effects, next_batch_request, BatchStatus, save_command_effects, selection_fields, subcategory_fetch, FormFill, SaveCommandEffects, SubcategoryFetch,
    CreationEffects,
};

fn entries() -> Vec<(String, Option<String>)> {
    vec![
        ("Food".to_string(), Some("Groceries and meals".to_string())),
        ("Rent".to_string(), None),
    ]
}

#[test]
fn editor_starts_empty() {
    let e = ListEditor::new(false);
    assert_eq!(e.selected, None);
    assert_eq!(e.pending, None);
    assert_eq!(e.name, "");
    assert_eq!(e.description, "");
    assert!(!e.loading);
    assert!(!e.dirty);
}

#[test]
fn created_entry_is_selected_after_fetch() {
    let mut e = ListEditor::new(false);
    e.enter_name("Travel".to_string());
    e.enter_description("Trips".to_string());
    e.start();
    assert!(e.loading);
    assert!(e.created(Some("id-3".to_string())));
    assert!(!e.loading);
    assert_eq!(e.name, "");
    assert_eq!(e.description, "");
    assert_eq!(e.pending, Some("id-3".to_string()));
    assert!(!e.dirty);
    e.fetched(&vec!["id-1".to_string(), "id-3".to_string(), "id-3".to_string()]);
    assert_eq!(e.selected, Some(1));
    assert_eq!(e.pending, None);
}

#[test]
fn created_entry_missing_from_fetch_keeps_selection() {
    let mut e = ListEditor::new(true);
    e.pick(Some(0), &entries());
    assert!(e.created(Some("new".to_string())));
    assert!(e.dirty);
    e.fetched(&vec!["a".to_string(), "b".to_string()]);
    assert_eq!(e.selected, Some(0));
    assert_eq!(e.pending, None);
}

#[test]
fn failed_creation_keeps_form() {
    let mut e = ListEditor::new(true);
    e.enter_name("Travel".to_string());
    e.start();
    assert!(e.created(None));
    assert_eq!(e.name, "Travel");
    assert!(!e.dirty);
    e.fetched(&vec!["a".to_string()]);
    assert_eq!(e.selected, None);
}

#[test]
fn picking_fills_the_form() {
    let mut e = ListEditor::new(false);
    e.validated(Some("Name is required".to_string()), None);
    e.pick(Some(0), &entries());
    assert_eq!(e.selected, Some(0));
    assert_eq!(e.name, "Food");
    assert_eq!(e.description, "Groceries and meals");
    assert_eq!(e.name_error, None);
    e.pick(Some(1), &entries());
    assert_eq!(e.name, "Rent");
    assert_eq!(e.description, "");
    e.pick(Some(5), &entries());
    assert_eq!(e.selected, Some(5));
    assert_eq!(e.name, "Rent");
    e.pick(None, &entries());
    assert_eq!(e.selected, None);
    assert_eq!(e.name, "");
}

#[test]
fn deselect_keeps_form() {
    let mut e = ListEditor::new(false);
    e.pick(Some(0), &entries());
    e.deselect();
    assert_eq!(e.selected, None);
    assert_eq!(e.name, "Food");
}

#[test]
fn edits_and_deletions() {
    let mut plain = ListEditor::new(false);
    plain.pick(Some(1), &entries());
    plain.start();
    assert!(!plain.edited(true));
    assert!(!plain.dirty);
    assert_eq!(plain.selected, Some(1));
    assert!(plain.deleted(true));
    assert_eq!(plain.selected, None);
    assert!(!plain.dirty);

    let mut recording = ListEditor::new(true);
    recording.pick(Some(1), &entries());
    assert!(recording.edited(false));
    assert!(!recording.dirty);
    assert!(recording.edited(true));
    assert!(recording.dirty);
    assert!(recording.deleted(false));
    assert!(recording.dirty);
    assert_eq!(recording.selected, None);
}

#[test]
fn subcategory_editor_flow() {
    let mut s = SubcategoryEditor::new();
    assert_eq!(s.exit_report(), (false, false));
    assert!(s.choose_category(Some(2)));
    s.subcategories.pick(Some(0), &entries());
    assert!(s.choose_category(Some(1)));
    assert_eq!(s.category, Some(1));
    assert_eq!(s.subcategories.selected, None);
    assert!(!s.categories_edited(false));
    assert_eq!(s.category, Some(1));
    assert!(s.categories_edited(true));
    assert_eq!(s.category, None);
    assert!(s.subcategories.deleted(true));
    assert_eq!(s.exit_report(), (true, true));
}

#[test]
fn form_fill_for_selection() {
    assert_eq!(
        selection_fields(&entries(), Some(0)),
        FormFill::Fill { name: "Food".to_string(), description: "Groceries and meals".to_string() }
    );
    assert_eq!(
        selection_fields(&entries(), Some(1)),
        FormFill::Fill { name: "Rent".to_string(), description: String::new() }
    );
    assert_eq!(selection_fields(&entries(), Some(2)), FormFill::Keep);
    assert_eq!(
        selection_fields(&entries(), None),
        FormFill::Fill { name: String::new(), description: String::new() }
    );
}

#[test]
fn category_change_fetches() {
    assert_eq!(subcategory_fetch(Some(1), 3), SubcategoryFetch::Fetch(1));
    assert_eq!(subcategory_fetch(Some(3), 3), SubcategoryFetch::ClearCategories);
    assert_eq!(subcategory_fetch(None, 3), SubcategoryFetch::ClearSubcategories);
}

#[test]
fn save_command_progress() {
    assert_eq!(
        save_command_effects(&UseCommandState::Init),
        SaveCommandEffects { loading: Some(false), error: None, proceed: false }
    );
    assert_eq!(
        save_command_effects(&UseCommandState::Loading),
        SaveCommandEffects { loading: Some(true), error: Some(None), proceed: false }
    );
    assert_eq!(
        save_command_effects(&UseCommandState::Resolved(Ok(true))),
        SaveCommandEffects { loading: Some(false), error: Some(None), proceed: true }
    );
    assert_eq!(
        save_command_effects(&UseCommandState::Resolved(Ok(false))),
        SaveCommandEffects { loading: None, error: None, proceed: false }
    );
    assert_eq!(
        save_command_effects(&UseCommandState::Resolved(Err("Incorrect password".to_string()))),
        SaveCommandEffects {
            loading: Some(false),
            error: Some(Some("Incorrect password".to_string())),
            proceed: false
        }
    );
}

#[test]
fn command_results_are_sorted() {
    let ok: Result<u32, CommandError<&str>> = Ok(7);
    assert_eq!(handle_result(ok), Ok(7));
    let expected: Result<u32, CommandError<&str>> = Err(CommandError::Expected("duplicate name"));
    assert_eq!(handle_result(expected), Err(UseResultError::Expected("duplicate name")));
    let unexpected: Result<u32, CommandError<&str>> = Err(CommandError::Unexpected("disk full".to_string()));
    assert_eq!(
        handle_result(unexpected),
        Err(UseResultError::Unexpected("An unexpected error occurred: disk full".to_string()))
    );
    let other: Result<u32, CommandError<&str>> = Err(CommandError::Other("timeout".to_string()));
    assert_eq!(
        handle_result(other),
        Err(UseResultError::Unexpected("An error occurred: timeout".to_string()))
    );
}

#[test]
fn quote_box_text() {
    let init: UseAsyncState<String, ()> = UseAsyncState::Init;
    assert_eq!(quote_text(&init), "Initializing...");
    let first: UseAsyncState<String, ()> = UseAsyncState::Loading(PreviousUseAsyncState::NoOutcome);
    assert_eq!(quote_text(&first), "Fetching quote...");
    let done: UseAsyncState<String, ()> = UseAsyncState::Success("Be brave.".to_string());
    assert_eq!(quote_text(&done), "Be brave.");
    let next: UseAsyncState<String, ()> = UseAsyncState::Loading(PreviousUseAsyncState::Success("Be brave.".to_string()));
    assert_eq!(quote_text(&next), "Be brave.");
}

#[test]
fn creation_progress() {
    let init: UseCommandState<Result<Option<u32>, String>> = UseCommandState::Init;
    assert_eq!(creation_effects(&init), CreationEffects { loading: None, created: None });
    let loading: UseCommandState<Result<Option<u32>, String>> = UseCommandState::Loading;
    assert_eq!(creation_effects(&loading), CreationEffects { loading: Some(true), created: None });
    let created: UseCommandState<Result<Option<u32>, String>> = UseCommandState::Resolved(Ok(Some(12)));
    assert_eq!(creation_effects(&created), CreationEffects { loading: Some(false), created: Some(&12) });
    let invalid: UseCommandState<Result<Option<u32>, String>> = UseCommandState::Resolved(Ok(None));
    assert_eq!(creation_effects(&invalid), CreationEffects { loading: Some(false), created: None });
    let failed: UseCommandState<Result<Option<u32>, String>> = UseCommandState::Resolved(Err("no".to_string()));
    assert_eq!(creation_effects(&failed), CreationEffects { loading: Some(false), created: None });
}

#[test]
fn batch_requests() {
    assert_eq!(next_batch_request(Some(1), 3, 200), Some((1, 200, 100)));
    assert_eq!(next_batch_request(Some(3), 3, 0), None);
    assert_eq!(next_batch_request(None, 3, 0), None);
}

#[test]
fn batch_outcomes() {
    assert_eq!(batch_status(None), BatchStatus::Loading);
    assert_eq!(batch_status(Some(Ok(()))), BatchStatus::Loaded);
    assert_eq!(
        batch_status(Some(Err("database locked".to_string()))),
        BatchStatus::Failed { title: "Application Error".to_string(), text: "database locked".to_string() }
    );
}

#[test]
fn unexpected_failures_are_handled() {
    let ok: Result<u32, CommandError<&str>> = Ok(1);
    assert_eq!(handle_command_result(ok), (Ok(1), None));
    let expected: Result<u32, CommandError<&str>> = Err(CommandError::Expected("taken"));
    assert_eq!(handle_command_result(expected), (Err(HandledError::Expected("taken")), None));
    let unexpected: Result<u32, CommandError<&str>> = Err(CommandError::Unexpected("disk full".to_string()));
    assert_eq!(
        handle_command_result(unexpected),
        (
            Err(HandledError::UnexpectedError),
            Some(UnexpectedErrorReaction {
                log_message: "An unexpected error occurred: disk full".to_string(),
                alert_title: "Unexpected Error".to_string(),
                alert_text: "An unexpected error occurred. See the logs for more details.".to_string(),
            })
        )
    );
    let other: Result<u32, CommandError<&str>> = Err(CommandError::Other("timeout".to_string()));
    let (result, reaction) = handle_command_result(other);
    assert_eq!(result, Err(HandledError::UnexpectedError));
    assert_eq!(reaction.unwrap().log_message, "An error occurred: timeout");
}
