use vstd::prelude::*;

verus! {

/// What an entry list editor holds, as plain values.
pub struct ListEditorView {
    /// The selected entry; with none selected the form creates a new entry.
    pub selected: Option<usize>,
    /// The id of an entry just created, until the list is fetched again.
    pub pending: Option<Seq<char>>,
    /// The name field.
    pub name: Seq<char>,
    /// The error shown under the name field.
    pub name_error: Option<Seq<char>>,
    /// The description field.
    pub description: Seq<char>,
    /// The error shown under the description field.
    pub description_error: Option<Seq<char>>,
    /// A command is running.
    pub loading: bool,
    /// The entries changed since the editor opened.
    pub dirty: bool,
    /// The editor records changes and fetches the list again after an edit.
    pub tracks_changes: bool,
}

/// The text of an optional string.
pub open spec fn opt_text(s: Option<String>) -> Option<Seq<char>> {
    match s {
        Some(t) => Some(t@),
        None => None,
    }
}

/// The texts of a list of strings.
pub open spec fn texts(ids: Seq<String>) -> Seq<Seq<char>> {
    ids.map_values(|s: String| s@)
}

/// The texts of a list of entries given as (name, optional description).
pub open spec fn entry_texts(entries: Seq<(String, Option<String>)>) -> Seq<(Seq<char>, Option<Seq<char>>)> {
    entries.map_values(|e: (String, Option<String>)| (e.0@, opt_text(e.1)))
}

/// `p` is the first position of `id` in `ids`.
pub open spec fn is_first_match(ids: Seq<Seq<char>>, id: Seq<char>, p: int) -> bool {
    &&& 0 <= p < ids.len()
    &&& ids[p] == id
    &&& forall|j: int| 0 <= j < p ==> ids[j] != id
}

/// `id` occurs in `ids`.
pub open spec fn holds_id(ids: Seq<Seq<char>>, id: Seq<char>) -> bool {
    exists|j: int| 0 <= j < ids.len() && ids[j] == id
}

/// The first position of `id` in `ids`, where it occurs.
pub open spec fn first_position(ids: Seq<Seq<char>>, id: Seq<char>) -> int {
    choose|p: int| is_first_match(ids, id, p)
}

/// There is one first position.
proof fn lemma_first_match_unique(ids: Seq<Seq<char>>, id: Seq<char>, p: int, q: int)
    requires
        is_first_match(ids, id, p),
        is_first_match(ids, id, q),
    ensures
        p == q,
{
    if p < q {
        assert(ids[p] != id);
    } else if q < p {
        assert(ids[q] != id);
    }
}

/// An entry that occurs has a first position.
proof fn lemma_first_position(ids: Seq<Seq<char>>, id: Seq<char>)
    requires
        holds_id(ids, id),
    ensures
        is_first_match(ids, id, first_position(ids, id)),
    decreases ids.len(),
{
    let j = choose|j: int| 0 <= j < ids.len() && ids[j] == id;
    if ids[0] == id {
        assert(is_first_match(ids, id, 0));
    } else {
        let rest = ids.drop_first();
        assert(rest[j - 1] == id);
        lemma_first_position(rest, id);
        let p = first_position(rest, id);
        assert forall|k: int| 0 <= k < p + 1 implies ids[k] != id by {
            if k > 0 {
                assert(ids[k] == rest[k - 1]);
            }
        }
        assert(is_first_match(ids, id, p + 1));
    }
}

impl ListEditorView {
    /// A fresh editor: nothing selected, an empty form, no change yet.
    pub open spec fn fresh(tracks_changes: bool) -> Self {
        ListEditorView {
            selected: None,
            pending: None,
            name: Seq::empty(),
            name_error: None,
            description: Seq::empty(),
            description_error: None,
            loading: false,
            dirty: false,
            tracks_changes,
        }
    }

    /// A command (create, edit or delete) starts running.
    pub open spec fn started(self) -> Self {
        ListEditorView { loading: true, ..self }
    }

    /// The create command finished, having created the entry with this id,
    /// or nothing (the form did not validate, or the backend failed). A new
    /// entry empties the form and waits to be selected.
    pub open spec fn created(self, new_id: Option<Seq<char>>) -> Self {
        match new_id {
            Some(id) => ListEditorView {
                loading: false,
                pending: Some(id),
                name: Seq::empty(),
                description: Seq::empty(),
                dirty: self.dirty || self.tracks_changes,
                ..self
            },
            None => ListEditorView { loading: false, ..self },
        }
    }

    /// The edit command finished, successfully or not.
    /// `ok` tells whether the command returned without an error. For the
    /// recorded change to mean "a change reached the backend", as the
    /// subviews' exit report promises, a caller passes `ok` only when the
    /// command reached the backend and succeeded; the subviews, as written,
    /// pass the command's `Ok` also when the form did not validate and
    /// nothing was sent.
    pub open spec fn edited(self, ok: bool) -> Self {
        ListEditorView { loading: false, dirty: self.dirty || (self.tracks_changes && ok), ..self }
    }

    /// The delete command finished, successfully or not: nothing is
    /// selected any more.
    /// `ok` tells whether the command returned without an error. For the
    /// recorded change to mean "a change reached the backend", as the
    /// subviews' exit report promises, a caller passes `ok` only when the
    /// command reached the backend and succeeded; the subviews, as written,
    /// pass the command's `Ok` also when the form did not validate and
    /// nothing was sent.
    pub open spec fn deleted(self, ok: bool) -> Self {
        ListEditorView {
            loading: false,
            selected: None,
            dirty: self.dirty || (self.tracks_changes && ok),
            ..self
        }
    }

    /// The list was fetched again, with these ids in order: an entry just
    /// created is selected where it first occurs, and no longer waited for.
    pub open spec fn fetched(self, ids: Seq<Seq<char>>) -> Self {
        match self.pending {
            Some(id) => ListEditorView {
                selected: if holds_id(ids, id) {
                    Some(first_position(ids, id) as usize)
                } else {
                    self.selected
                },
                pending: None,
                ..self
            },
            None => self,
        }
    }

    /// An entry, or none, is chosen among these (name, description)
    /// entries: the form shows the chosen entry without errors, or empties
    /// when none is chosen; a choice past the end leaves the form alone.
    pub open spec fn chosen(self, index: Option<usize>, entries: Seq<(Seq<char>, Option<Seq<char>>)>) -> Self {
        match index {
            Some(i) => if i < entries.len() {
                ListEditorView {
                    selected: index,
                    name: entries[i as int].0,
                    name_error: None,
                    description: match entries[i as int].1 {
                        Some(d) => d,
                        None => Seq::empty(),
                    },
                    description_error: None,
                    ..self
                }
            } else {
                ListEditorView { selected: index, ..self }
            },
            None => ListEditorView {
                selected: None,
                name: Seq::empty(),
                name_error: None,
                description: Seq::empty(),
                description_error: None,
                ..self
            },
        }
    }

    /// The selection is dropped, the form left as it is.
    pub open spec fn deselected(self) -> Self {
        ListEditorView { selected: None, ..self }
    }
}

/// The state of a subview that creates, edits and deletes the entries of a
/// list (categories, subcategories, tags or institutions). The select that
/// shows the entries reports every change of the selection, whatever made
/// it, through [`ListEditor::pick`].
#[derive(Debug, Clone, PartialEq)]
pub struct ListEditor {
    /// The selected entry; with none selected the form creates a new entry.
    pub selected: Option<usize>,
    /// The id of an entry just created, until the list is fetched again.
    pub pending: Option<String>,
    /// The name field.
    pub name: String,
    /// The error shown under the name field.
    pub name_error: Option<String>,
    /// The description field.
    pub description: String,
    /// The error shown under the description field.
    pub description_error: Option<String>,
    /// A command is running.
    pub loading: bool,
    /// The entries changed since the editor opened.
    pub dirty: bool,
    /// The editor records changes and fetches the list again after an edit.
    pub tracks_changes: bool,
}

impl View for ListEditor {
    type V = ListEditorView;

    open spec fn view(&self) -> ListEditorView {
        ListEditorView {
            selected: self.selected,
            pending: opt_text(self.pending),
            name: self.name@,
            name_error: opt_text(self.name_error),
            description: self.description@,
            description_error: opt_text(self.description_error),
            loading: self.loading,
            dirty: self.dirty,
            tracks_changes: self.tracks_changes,
        }
    }
}

impl ListEditor {
    /// A fresh editor: nothing selected, an empty form, no change yet.
    pub fn new(tracks_changes: bool) -> (r: Self)
        ensures
            r@ == ListEditorView::fresh(tracks_changes),
    {
        ListEditor {
            selected: None,
            pending: None,
            name: String::new(),
            name_error: None,
            description: String::new(),
            description_error: None,
            loading: false,
            dirty: false,
            tracks_changes,
        }
    }

    /// The user typed into the name field.
    pub fn enter_name(&mut self, name: String)
        ensures
            final(self)@ == (ListEditorView { name: name@, ..old(self)@ }),
    {
        self.name = name;
    }

    /// The user typed into the description field.
    pub fn enter_description(&mut self, description: String)
        ensures
            final(self)@ == (ListEditorView { description: description@, ..old(self)@ }),
    {
        self.description = description;
    }

    /// The form was checked, with these errors for its two fields.
    pub fn validated(&mut self, name_error: Option<String>, description_error: Option<String>)
        ensures
            final(self)@ == (ListEditorView {
                name_error: opt_text(name_error),
                description_error: opt_text(description_error),
                ..old(self)@
            }),
    {
        self.name_error = name_error;
        self.description_error = description_error;
    }

    /// A command (create, edit or delete) starts running.
    pub fn start(&mut self)
        ensures
            final(self)@ == old(self)@.started(),
    {
        self.loading = true;
    }

    /// The create command finished, having created the entry with this id,
    /// or nothing. The list is then fetched again: the result is `true`.
    pub fn created(&mut self, new_id: Option<String>) -> (refresh: bool)
        ensures
            final(self)@ == old(self)@.created(opt_text(new_id)),
            refresh,
    {
        self.loading = false;
        if let Some(id) = new_id {
            self.pending = Some(id);
            self.name = String::new();
            self.description = String::new();
            self.dirty = self.dirty || self.tracks_changes;
        }
        true
    }

    /// The edit command finished, successfully or not. The result says
    /// whether the list is fetched again: when the editor tracks changes.
    /// `ok` tells whether the command returned without an error. For the
    /// recorded change to mean "a change reached the backend", as the
    /// subviews' exit report promises, a caller passes `ok` only when the
    /// command reached the backend and succeeded; the subviews, as written,
    /// pass the command's `Ok` also when the form did not validate and
    /// nothing was sent.
    pub fn edited(&mut self, ok: bool) -> (refresh: bool)
        ensures
            final(self)@ == old(self)@.edited(ok),
            refresh == old(self).tracks_changes,
    {
        self.loading = false;
        self.dirty = self.dirty || (self.tracks_changes && ok);
        self.tracks_changes
    }

    /// The delete command finished, successfully or not. The list is then
    /// fetched again: the result is `true`.
    /// `ok` tells whether the command returned without an error. For the
    /// recorded change to mean "a change reached the backend", as the
    /// subviews' exit report promises, a caller passes `ok` only when the
    /// command reached the backend and succeeded; the subviews, as written,
    /// pass the command's `Ok` also when the form did not validate and
    /// nothing was sent.
    pub fn deleted(&mut self, ok: bool) -> (refresh: bool)
        ensures
            final(self)@ == old(self)@.deleted(ok),
            refresh,
    {
        self.loading = false;
        self.selected = None;
        self.dirty = self.dirty || (self.tracks_changes && ok);
        true
    }

    /// The list was fetched again, with these entry ids in order.
    pub fn fetched(&mut self, ids: &Vec<String>)
        ensures
            final(self)@ == old(self)@.fetched(texts(ids@)),
    {
        let ghost ids_text = texts(ids@);
        if let Some(id) = &self.pending {
            let mut p: usize = 0;
            let mut found = false;
            while p < ids.len()
                invariant_except_break
                    !found,
                    p <= ids@.len(),
                    forall|j: int| 0 <= j < p ==> ids_text[j] != id@,
                invariant
                    ids_text == texts(ids@),
                    ids_text.len() == ids@.len(),
                ensures
                    found ==> is_first_match(ids_text, id@, p as int),
                    !found ==> !holds_id(ids_text, id@),
                decreases ids.len() - p,
            {
                assert(ids_text[p as int] == ids@[p as int]@);
                if ids[p] == *id {
                    found = true;
                    break;
                }
                p = p + 1;
            }
            proof {
                if found {
                    lemma_first_position(ids_text, id@);
                    lemma_first_match_unique(ids_text, id@, p as int, first_position(ids_text, id@));
                }
            }
            if found {
                self.selected = Some(p);
            }
            self.pending = None;
        }
    }

    /// An entry, or none, was chosen among these (name, description)
    /// entries.
    pub fn pick(&mut self, index: Option<usize>, entries: &Vec<(String, Option<String>)>)
        ensures
            final(self)@ == old(self)@.chosen(index, entry_texts(entries@)),
    {
        self.selected = index;
        match index {
            Some(i) => if i < entries.len() {
                self.name = entries[i].0.clone();
                self.name_error = None;
                self.description = match &entries[i].1 {
                    Some(d) => d.clone(),
                    None => String::new(),
                };
                self.description_error = None;
            },
            None => {
                self.name = String::new();
                self.name_error = None;
                self.description = String::new();
                self.description_error = None;
            },
        }
    }

    /// The selection is dropped, the form left as it is.
    pub fn deselect(&mut self)
        ensures
            final(self)@ == old(self)@.deselected(),
    {
        self.selected = None;
    }
}

/// An entry created and then found in the list fetched after it is
/// selected where it first occurs, and no longer waited for.
pub proof fn lemma_created_entry_is_selected(e: ListEditorView, id: Seq<char>, ids: Seq<Seq<char>>, p: int)
    requires
        is_first_match(ids, id, p),
    ensures
        e.created(Some(id)).fetched(ids).selected == Some(p as usize),
        e.created(Some(id)).fetched(ids).pending is None,
{
    assert(holds_id(ids, id));
    lemma_first_position(ids, id);
    lemma_first_match_unique(ids, id, p, first_position(ids, id));
}

/// Choosing an entry, or none, sets the whole form from that choice alone:
/// two editors whatever their forms show the same form after the same
/// choice (of none, or of an existing entry), and choosing none empties the
/// form, name and description alike, with no errors.
pub proof fn lemma_pick_forgets_form(
    e1: ListEditorView,
    e2: ListEditorView,
    index: Option<usize>,
    entries: Seq<(Seq<char>, Option<Seq<char>>)>,
)
    requires
        index matches Some(i) ==> i < entries.len(),
    ensures
        e1.chosen(index, entries).selected == index,
        e1.chosen(index, entries).name == e2.chosen(index, entries).name,
        e1.chosen(index, entries).description == e2.chosen(index, entries).description,
        e1.chosen(index, entries).name_error == e2.chosen(index, entries).name_error,
        e1.chosen(index, entries).description_error == e2.chosen(index, entries).description_error,
        e1.chosen(index, entries).name_error is None && e1.chosen(index, entries).description_error is None,
        index is None ==> e1.chosen(index, entries).name.len() == 0 && e1.chosen(index, entries).description.len()
            == 0,
{
}

/// A change, once recorded, stays recorded whatever happens next; an
/// editor that does not track changes never records one.
pub proof fn lemma_changes_are_kept(
    e: ListEditorView,
    new_id: Option<Seq<char>>,
    ok: bool,
    ids: Seq<Seq<char>>,
    index: Option<usize>,
    entries: Seq<(Seq<char>, Option<Seq<char>>)>,
)
    ensures
        e.dirty ==> e.started().dirty && e.created(new_id).dirty && e.edited(ok).dirty
            && e.deleted(ok).dirty && e.fetched(ids).dirty && e.chosen(index, entries).dirty
            && e.deselected().dirty,
        !e.tracks_changes && !e.dirty ==> !e.started().dirty && !e.created(new_id).dirty
            && !e.edited(ok).dirty && !e.deleted(ok).dirty && !e.fetched(ids).dirty
            && !e.chosen(index, entries).dirty && !e.deselected().dirty,
{
}

/// The state of the subcategory editor: the category whose subcategories
/// are edited, and whether the categories were changed from it.
#[derive(Debug, Clone, PartialEq)]
pub struct SubcategoryEditor {
    /// The chosen category.
    pub category: Option<usize>,
    /// The categories were changed from this editor.
    pub categories_changed: bool,
    /// The editor of the chosen category's subcategories.
    pub subcategories: ListEditor,
}

impl SubcategoryEditor {
    /// A fresh subcategory editor: no category chosen, nothing changed.
    pub fn new() -> (r: Self)
        ensures
            r.category is None,
            !r.categories_changed,
            r.subcategories@ == ListEditorView::fresh(true),
    {
        SubcategoryEditor { category: None, categories_changed: false, subcategories: ListEditor::new(true) }
    }

    /// A category, or none, was chosen: no subcategory is selected any more
    /// and the subcategories are fetched again (the result is `true`).
    pub fn choose_category(&mut self, category: Option<usize>) -> (refresh: bool)
        ensures
            final(self).category == category,
            final(self).categories_changed == old(self).categories_changed,
            final(self).subcategories@ == old(self).subcategories@.deselected(),
            refresh,
    {
        self.category = category;
        self.subcategories.deselect();
        true
    }

    /// The category editor was left, having changed the categories or not.
    /// After a change no category is chosen and the categories are fetched
    /// again (the result says whether they are).
    pub fn categories_edited(&mut self, changed: bool) -> (refresh: bool)
        ensures
            final(self).category == (if changed { None } else { old(self).category }),
            final(self).categories_changed == (old(self).categories_changed || changed),
            final(self).subcategories == old(self).subcategories,
            refresh == changed,
    {
        if changed {
            self.category = None;
            self.categories_changed = true;
        }
        changed
    }

    /// What the editor reports when it is left: whether the subcategories
    /// and whether the categories were changed.
    pub fn exit_report(&self) -> (r: (bool, bool))
        ensures
            r == (self.subcategories.dirty, self.categories_changed),
    {
        (self.subcategories.dirty, self.categories_changed)
    }
}

} // verus!
