use vstd::prelude::*;
use crate::async_state::UseCommandState;

verus! {

/// The number of transactions to request in one batch.
pub const TRANSACTION_BATCH_LIMIT: usize = 100;

/// The locale to format dates with: the first of the user's preferred
/// languages, else the browser's language, else `en-US`.
pub fn choose_locale(first_language: Option<String>, language: Option<String>) -> (r: String)
    ensures
        r@ == match first_language {
            Some(l) => l@,
            None => match language {
                Some(l) => l@,
                None => "en-US"@,
            },
        },
{
    if let Some(lang) = first_language {
        lang
    } else if let Some(lang) = language {
        lang
    } else {
        "en-US".to_owned()
    }
}

/// The batch of transactions to request for the selected account: the
/// account's index, the number of transactions already loaded (where the
/// batch starts) and the batch size. Nothing is requested when no account
/// is selected or the selected one does not exist.
pub fn next_batch_request(selected: Option<usize>, num_accounts: usize, loaded: usize) -> (r: Option<(usize, usize, usize)>)
    ensures
        r == match selected {
            Some(i) => if i < num_accounts { Some((i, loaded, TRANSACTION_BATCH_LIMIT)) } else { None },
            None => None,
        },
{
    match selected {
        Some(i) => if i < num_accounts { Some((i, loaded, TRANSACTION_BATCH_LIMIT)) } else { None },
        None => None,
    }
}

/// What the transaction list shows for the latest batch request.
#[derive(Debug, Clone, PartialEq)]
pub enum BatchStatus {
    /// No batch has arrived yet: a loading indicator.
    Loading,
    /// The batch arrived.
    Loaded,
    /// The batch failed: the app returns to the home view and opens an
    /// alert with this title and text.
    Failed {
        /// The alert's title.
        title: String,
        /// The alert's text: the error's message.
        text: String,
    },
}

/// The status of the transaction list, given the outcome of the latest
/// batch request (the error given by its message), if it has finished.
pub fn batch_status(outcome: Option<Result<(), String>>) -> (r: BatchStatus)
    ensures
        match outcome {
            None => r is Loading,
            Some(Ok(())) => r is Loaded,
            Some(Err(e)) => r matches BatchStatus::Failed { title, text }
                && title@ == "Application Error"@ && text@ == e@,
        },
{
    match outcome {
        None => BatchStatus::Loading,
        Some(Ok(())) => BatchStatus::Loaded,
        Some(Err(e)) => BatchStatus::Failed { title: "Application Error".to_owned(), text: e },
    }
}

/// The transactions of an account after a batch arrives: the batch goes in
/// front of those already loaded, and a batch shorter than the limit means
/// that everything is loaded.
pub fn merge_transaction_batch<T>(loaded: Vec<T>, batch: Vec<T>, limit: usize) -> (r: (Vec<T>, bool))
    ensures
        r.0@ == batch@ + loaded@,
        r.1 == (batch@.len() < limit),
{
    let all_loaded = batch.len() < limit;
    let mut transactions = batch;
    let mut rest = loaded;
    transactions.append(&mut rest);
    (transactions, all_loaded)
}

/// `a` was opened after `b`, or at the same moment and listed after it.
pub open spec fn opened_later(keys: Seq<(i64, u32)>, a: int, b: int) -> bool {
    keys[a].0 > keys[b].0
        || (keys[a].0 == keys[b].0 && keys[a].1 > keys[b].1)
        || (keys[a] == keys[b] && a > b)
}

/// The order in which saves are listed, most recently opened first, given
/// the moment each was last opened (seconds and nanoseconds): the indices
/// of all saves, each once, in descending order of that moment; saves opened
/// at the same moment come in reverse of their listed order.
pub fn recent_first_order(keys: &Vec<(i64, u32)>) -> (r: Vec<usize>)
    ensures
        r@.len() == keys@.len(),
        forall|k: int| 0 <= k < r@.len() ==> #[trigger] r@[k] < keys@.len(),
        forall|a: int, b: int| 0 <= a < b < r@.len() ==> opened_later(keys@, #[trigger] r@[a] as int, #[trigger] r@[b] as int),
        forall|i: int| 0 <= i < keys@.len() ==> #[trigger] r@.contains(i as usize),
{
    let mut r: Vec<usize> = Vec::new();
    let mut i: usize = 0;
    while i < keys.len()
        invariant
            i <= keys@.len(),
            r@.len() == i,
            forall|k: int| 0 <= k < r@.len() ==> #[trigger] r@[k] < i,
            forall|a: int, b: int| 0 <= a < b < r@.len() ==> opened_later(keys@, #[trigger] r@[a] as int, #[trigger] r@[b] as int),
            forall|j: int| 0 <= j < i ==> #[trigger] r@.contains(j as usize),
        decreases keys.len() - i,
    {
        let key = keys[i];
        let mut p: usize = 0;
        while p < r.len() && (keys[r[p]].0 > key.0 || (keys[r[p]].0 == key.0 && keys[r[p]].1 > key.1))
            invariant
                p <= r@.len(),
                forall|k: int| 0 <= k < r@.len() ==> #[trigger] r@[k] < i,
                i < keys@.len(),
                key == keys@[i as int],
                forall|k: int| 0 <= k < p ==> opened_later(keys@, #[trigger] r@[k] as int, i as int),
            decreases r.len() - p,
        {
            p = p + 1;
        }
        let ghost old_r = r@;
        r.insert(p, i);
        proof {
            assert forall|k: int| 0 <= k < r@.len() implies #[trigger] r@[k] < i + 1 by {
                if k < p {
                    assert(r@[k] == old_r[k]);
                } else if k > p {
                    assert(r@[k] == old_r[k - 1]);
                }
            }
            assert forall|a: int, b: int| 0 <= a < b < r@.len() implies opened_later(
                keys@, #[trigger] r@[a] as int, #[trigger] r@[b] as int) by {
                if b < p {
                    assert(r@[a] == old_r[a] && r@[b] == old_r[b]);
                } else if b == p {
                    assert(r@[a] == old_r[a]);
                } else if a < p {
                    assert(r@[a] == old_r[a] && r@[b] == old_r[b - 1]);
                } else if a == p {
                    assert(r@[b] == old_r[b - 1]);
                    assert(old_r[b - 1] < i);
                    assert(!opened_later(keys@, old_r[p as int] as int, i as int));
                    if b - 1 > p {
                        assert(opened_later(keys@, old_r[p as int] as int, old_r[b - 1] as int));
                    }
                } else {
                    assert(r@[a] == old_r[a - 1] && r@[b] == old_r[b - 1]);
                }
            }
            assert forall|j: int| 0 <= j < i + 1 implies #[trigger] r@.contains(j as usize) by {
                if j == i {
                    assert(r@[p as int] == j as usize);
                } else {
                    assert(old_r.contains(j as usize));
                    let k = choose|k: int| 0 <= k < old_r.len() && old_r[k] == j as usize;
                    if k < p {
                        assert(r@[k] == j as usize);
                    } else {
                        assert(r@[k + 1] == j as usize);
                    }
                }
            }
        }
        i = i + 1;
    }
    r
}

/// What a form shows after the selection in its list changes.
#[derive(Debug, Clone, PartialEq)]
pub enum FormFill {
    /// The fields stay as they are.
    Keep,
    /// The fields show this name and description, with no errors.
    Fill {
        /// The name field.
        name: String,
        /// The description field.
        description: String,
    },
}

/// The form contents for a selection among items given as (name, optional
/// description): the selected item's name and description (an empty one
/// when it has none); empty fields when nothing is selected; unchanged when
/// the selected item does not exist.
pub fn selection_fields(items: &Vec<(String, Option<String>)>, index: Option<usize>) -> (r: FormFill)
    ensures
        match index {
            Some(i) => if i < items@.len() {
                r matches FormFill::Fill { name, description }
                    && name@ == items@[i as int].0@
                    && description@ == match items@[i as int].1 {
                        Some(d) => d@,
                        None => Seq::<char>::empty(),
                    }
            } else {
                r is Keep
            },
            None => r matches FormFill::Fill { name, description }
                && name@ == Seq::<char>::empty() && description@ == Seq::<char>::empty(),
        },
{
    match index {
        Some(i) => if i < items.len() {
            let name = items[i].0.clone();
            let description = match &items[i].1 {
                Some(d) => d.clone(),
                None => String::new(),
            };
            FormFill::Fill { name, description }
        } else {
            FormFill::Keep
        },
        None => FormFill::Fill { name: String::new(), description: String::new() },
    }
}

/// What happens when the chosen category of a new transaction changes.
#[derive(Debug, Clone, Copy, PartialEq, Eq, Structural)]
pub enum SubcategoryFetch {
    /// Fetch the subcategories of the category at this index.
    Fetch(usize),
    /// The chosen category does not exist: the list of categories is cleared.
    ClearCategories,
    /// No category is chosen: the list of subcategories is cleared.
    ClearSubcategories,
}

/// Decides what a change of the chosen category leads to.
pub fn subcategory_fetch(category: Option<usize>, num_categories: usize) -> (r: SubcategoryFetch)
    ensures
        r == match category {
            Some(i) => if i < num_categories { SubcategoryFetch::Fetch(i) } else { SubcategoryFetch::ClearCategories },
            None => SubcategoryFetch::ClearSubcategories,
        },
{
    match category {
        Some(i) => if i < num_categories { SubcategoryFetch::Fetch(i) } else { SubcategoryFetch::ClearCategories },
        None => SubcategoryFetch::ClearSubcategories,
    }
}

/// What a view does as its save file command (opening or creating a save)
/// progresses.
#[derive(Debug, Clone, PartialEq)]
pub struct SaveCommandEffects {
    /// The loading overlay is shown or hidden, or left as it is.
    pub loading: Option<bool>,
    /// The error message is replaced, or left as it is.
    pub error: Option<Option<String>>,
    /// The command succeeded: the view moves on to the open save.
    pub proceed: bool,
}

/// The effects of a save file command's state: before it runs the overlay
/// is hidden; while it runs the overlay is shown and the error cleared; when
/// it succeeds the overlay is hidden, the error cleared and the view moves
/// on; when it declines (`Ok(false)`) nothing changes; when it fails the
/// overlay is hidden and the error message shown.
pub fn save_command_effects(state: &UseCommandState<Result<bool, String>>) -> (r: SaveCommandEffects)
    ensures
        match state {
            UseCommandState::Init => r.loading == Some(false) && r.error is None && !r.proceed,
            UseCommandState::Loading => r.loading == Some(true) && r.error == Some(None::<String>) && !r.proceed,
            UseCommandState::Resolved(Ok(true)) => r.loading == Some(false) && r.error == Some(None::<String>) && r.proceed,
            UseCommandState::Resolved(Ok(false)) => r.loading is None && r.error is None && !r.proceed,
            UseCommandState::Resolved(Err(e)) => r.loading == Some(false) && !r.proceed
                && (r.error matches Some(Some(m)) && m@ == e@),
        },
{
    match state {
        UseCommandState::Init => SaveCommandEffects { loading: Some(false), error: None, proceed: false },
        UseCommandState::Loading => SaveCommandEffects { loading: Some(true), error: Some(None), proceed: false },
        UseCommandState::Resolved(Ok(success)) => if *success {
            SaveCommandEffects { loading: Some(false), error: Some(None), proceed: true }
        } else {
            SaveCommandEffects { loading: None, error: None, proceed: false }
        },
        UseCommandState::Resolved(Err(e)) => SaveCommandEffects {
            loading: Some(false),
            error: Some(Some(e.clone())),
            proceed: false,
        },
    }
}

/// What a view does as its command to create something (an account or a
/// transaction) progresses.
#[derive(Debug, PartialEq)]
pub struct CreationEffects<'a, T> {
    /// The loading indicator is shown or hidden, or left as it is.
    pub loading: Option<bool>,
    /// What was created, if the command created something: the creation
    /// subview closes and reports it, the transaction list takes it in.
    pub created: Option<&'a T>,
}

/// The effects of a creation command's state: nothing before it runs; the
/// loading indicator while it runs; when it returns the indicator is
/// hidden, and what it created, if anything, is handed on. A form that did
/// not validate (`Ok(None)`) and a failure hand nothing on.
pub fn creation_effects<'a, T, E>(state: &'a UseCommandState<Result<Option<T>, E>>) -> (r: CreationEffects<'a, T>)
    ensures
        match *state {
            UseCommandState::Init => r.loading is None && r.created is None,
            UseCommandState::Loading => r.loading == Some(true) && r.created is None,
            UseCommandState::Resolved(Ok(Some(x))) => r.loading == Some(false) && r.created == Some(&x),
            UseCommandState::Resolved(_) => r.loading == Some(false) && r.created is None,
        },
{
    match state {
        UseCommandState::Init => CreationEffects { loading: None, created: None },
        UseCommandState::Loading => CreationEffects { loading: Some(true), created: None },
        UseCommandState::Resolved(Ok(Some(x))) => CreationEffects { loading: Some(false), created: Some(x) },
        UseCommandState::Resolved(_) => CreationEffects { loading: Some(false), created: None },
    }
}

} // verus!
