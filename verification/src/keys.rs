use vstd::prelude::*;

verus! {

/// Key code of the up arrow.
pub const KEY_UP: u32 = 38;
/// Key code of the down arrow.
pub const KEY_DOWN: u32 = 40;
/// Key code of the space bar.
pub const KEY_SPACE: u32 = 32;
/// Key code of the enter key.
pub const KEY_ENTER: u32 = 13;
/// Key code of the escape key.
pub const KEY_ESCAPE: u32 = 27;
/// Key code of the backspace key.
pub const KEY_BACKSPACE: u32 = 8;

/// The highlighted entry after pressing the up arrow in a list of `n`
/// entries: the one above, wrapping from the top to the bottom; the bottom
/// one when nothing was highlighted.
pub open spec fn spec_cycle_up(selecting: Option<usize>, n: nat) -> Option<usize> {
    match selecting {
        Some(v) => Some(((v + n - 1) % (n as int)) as usize),
        None => Some((n - 1) as usize),
    }
}

/// The highlighted entry after pressing the down arrow in a list of `n`
/// entries: the one below, wrapping from the bottom to the top; the top one
/// when nothing was highlighted.
pub open spec fn spec_cycle_down(selecting: Option<usize>, n: nat) -> Option<usize> {
    match selecting {
        Some(v) => Some(((v + 1) % (n as int)) as usize),
        None => Some(0),
    }
}

/// Moves the highlight up in a list of `n > 0` entries.
pub fn cycle_up(selecting: Option<usize>, n: usize) -> (r: Option<usize>)
    requires
        n > 0,
        selecting matches Some(v) ==> v + n <= usize::MAX,
    ensures
        r == spec_cycle_up(selecting, n as nat),
{
    match selecting {
        Some(value) => Some((value + n - 1) % n),
        None => Some(n - 1),
    }
}

/// Moves the highlight down in a list of `n > 0` entries.
pub fn cycle_down(selecting: Option<usize>, n: usize) -> (r: Option<usize>)
    requires
        n > 0,
        selecting matches Some(v) ==> v < usize::MAX,
    ensures
        r == spec_cycle_down(selecting, n as nat),
{
    match selecting {
        Some(value) => Some((value + 1) % n),
        None => Some(0),
    }
}

/// Moving the highlight down undoes moving it up, and the other way round,
/// for any highlighted entry of the list.
pub proof fn lemma_cycle_inverse(v: usize, n: nat)
    requires
        v < n,
        n <= usize::MAX,
    ensures
        spec_cycle_down(spec_cycle_up(Some(v), n), n) == Some(v),
        spec_cycle_up(spec_cycle_down(Some(v), n), n) == Some(v),
{
    let u = ((v + n - 1) % (n as int)) as usize;
    let d = ((v + 1) % (n as int)) as usize;
    if v == 0 {
        assert((v + n - 1) % (n as int) == n - 1) by (nonlinear_arith)
            requires v == 0, n > 0;
    } else {
        assert((v + n - 1) % (n as int) == v - 1) by (nonlinear_arith)
            requires 0 < v < n;
    }
    assert((u + 1) % (n as int) == v as int) by (nonlinear_arith)
        requires
            u == (if v == 0 { n - 1 } else { v - 1 }),
            v < n;
    if v + 1 == n {
        assert((v + 1) % (n as int) == 0) by (nonlinear_arith)
            requires v + 1 == n;
    } else {
        assert((v + 1) % (n as int) == v + 1) by (nonlinear_arith)
            requires v + 1 < n;
    }
    assert((d + n - 1) % (n as int) == v as int) by (nonlinear_arith)
        requires
            d == (if v + 1 == n { 0 } else { v + 1 }),
            v < n;
}

/// What a key press in an open select does.
#[derive(Debug, Clone, Copy, PartialEq, Eq, Structural)]
pub struct SelectKeyOutcome {
    /// The highlighted option afterwards.
    pub selecting: Option<usize>,
    /// The option chosen by the key, if any.
    pub chosen: Option<usize>,
    /// Whether the dropdown closes.
    pub close: bool,
    /// Whether the key's default action is suppressed.
    pub prevent_default: bool,
}

/// The effect of a key press on a select with `n` options: arrows move the
/// highlight (when there are options), space or enter choose the highlighted
/// option and close, escape or backspace close. Nothing happens while the
/// dropdown is closed.
pub open spec fn spec_select_key(open: bool, selecting: Option<usize>, n: nat, key: u32) -> SelectKeyOutcome {
    let none = SelectKeyOutcome { selecting, chosen: None, close: false, prevent_default: false };
    if !open {
        none
    } else if key == KEY_UP {
        SelectKeyOutcome {
            selecting: if n != 0 { spec_cycle_up(selecting, n) } else { selecting },
            prevent_default: true,
            ..none
        }
    } else if key == KEY_DOWN {
        SelectKeyOutcome {
            selecting: if n != 0 { spec_cycle_down(selecting, n) } else { selecting },
            prevent_default: true,
            ..none
        }
    } else if key == KEY_SPACE || key == KEY_ENTER {
        match selecting {
            Some(i) => SelectKeyOutcome { chosen: Some(i), close: true, prevent_default: true, ..none },
            None => none,
        }
    } else if key == KEY_ESCAPE || key == KEY_BACKSPACE {
        SelectKeyOutcome { close: true, ..none }
    } else {
        none
    }
}

/// Handles a key press on a select with `n` options.
pub fn select_key(open: bool, selecting: Option<usize>, n: usize, key: u32) -> (r: SelectKeyOutcome)
    requires
        open && n > 0 && key == KEY_UP ==> (selecting matches Some(v) ==> v + n <= usize::MAX),
        open && n > 0 && key == KEY_DOWN ==> (selecting matches Some(v) ==> v < usize::MAX),
    ensures
        r == spec_select_key(open, selecting, n as nat, key),
        open && n > 0 && key == KEY_UP ==> r.selecting == Some(match selecting {
            Some(v) => if v == 0 { (n - 1) as usize } else { (v - 1) as usize },
            None => (n - 1) as usize,
        }) || !(selecting matches Some(v) ==> v < n),
        open && n > 0 && key == KEY_DOWN ==> r.selecting == Some(match selecting {
            Some(v) => if v + 1 == n { 0 } else { (v + 1) as usize },
            None => 0,
        }) || !(selecting matches Some(v) ==> v < n),
        !open ==> r.selecting == selecting && r.chosen is None && !r.close && !r.prevent_default,
        open && (key == KEY_SPACE || key == KEY_ENTER) ==> r.chosen == selecting && r.close == (selecting is Some)
            && r.selecting == selecting,
        open && (key == KEY_ESCAPE || key == KEY_BACKSPACE) ==> r.close && r.chosen is None && r.selecting
            == selecting,
{
    proof {
        lemma_select_arrows(open, selecting, n as nat, key);
    }
    let none = SelectKeyOutcome { selecting, chosen: None, close: false, prevent_default: false };
    if !open {
        none
    } else if key == KEY_UP {
        SelectKeyOutcome {
            selecting: if n != 0 { cycle_up(selecting, n) } else { selecting },
            prevent_default: true,
            ..none
        }
    } else if key == KEY_DOWN {
        SelectKeyOutcome {
            selecting: if n != 0 { cycle_down(selecting, n) } else { selecting },
            prevent_default: true,
            ..none
        }
    } else if key == KEY_SPACE || key == KEY_ENTER {
        match selecting {
            Some(i) => SelectKeyOutcome { chosen: Some(i), close: true, prevent_default: true, ..none },
            None => none,
        }
    } else if key == KEY_ESCAPE || key == KEY_BACKSPACE {
        SelectKeyOutcome { close: true, ..none }
    } else {
        none
    }
}

/// In a select with `n` options, a highlight that designates an option keeps
/// designating one whatever key is pressed, and a key only ever chooses an
/// existing option.
pub proof fn lemma_select_highlight_in_range(open: bool, selecting: Option<usize>, n: nat, key: u32)
    requires
        n <= usize::MAX,
        selecting matches Some(v) ==> v < n,
    ensures
        spec_select_key(open, selecting, n, key).selecting matches Some(w) ==> w < n,
        spec_select_key(open, selecting, n, key).chosen matches Some(c) ==> c < n,
{
    if n > 0 {
        if let Some(v) = selecting {
            assert((v + n - 1) % (n as int) < n) by (nonlinear_arith)
                requires n > 0, v < n;
            assert((v + 1) % (n as int) < n) by (nonlinear_arith)
                requires n > 0;
        }
    }
}

/// In a select with `n` options and a null option, a highlight that
/// designates one of the `n + 1` entries keeps designating one whatever key
/// is pressed, and a key only ever chooses an existing option or the null
/// option.
pub proof fn lemma_nullable_highlight_in_range(open: bool, selecting: Option<usize>, n: nat, key: u32)
    requires
        n < usize::MAX,
        selecting matches Some(v) ==> v <= n,
    ensures
        spec_nullable_select_key(open, selecting, n, key).selecting matches Some(w) ==> w <= n,
        spec_nullable_select_key(open, selecting, n, key).chosen matches Some(Some(c)) ==> c < n,
{
    if let Some(v) = selecting {
        assert((v + n) % (n as int + 1) <= n) by (nonlinear_arith)
            requires v <= n;
        assert((v + 1) % (n as int + 1) <= n) by (nonlinear_arith)
            requires v <= n;
    }
}

/// The arrows move the highlight by one entry, wrapping around: up goes to
/// the entry above (from the top to the bottom, and from nothing to the
/// bottom), down to the entry below (from the bottom to the top, and from
/// nothing to the top).
pub proof fn lemma_cycle_steps(selecting: Option<usize>, n: nat)
    requires
        n > 0,
        n <= usize::MAX,
        selecting matches Some(v) ==> v < n,
    ensures
        spec_cycle_up(selecting, n) == Some(match selecting {
            Some(v) => if v == 0 { (n - 1) as usize } else { (v - 1) as usize },
            None => (n - 1) as usize,
        }),
        spec_cycle_down(selecting, n) == Some(match selecting {
            Some(v) => if v + 1 == n { 0 } else { (v + 1) as usize },
            None => 0,
        }),
{
    if let Some(v) = selecting {
        if v == 0 {
            assert((v + n - 1) % (n as int) == n - 1) by (nonlinear_arith)
                requires v == 0, n > 0;
        } else {
            assert((v + n - 1) % (n as int) == v - 1) by (nonlinear_arith)
                requires 0 < v < n;
        }
        if v + 1 == n {
            assert((v + 1) % (n as int) == 0) by (nonlinear_arith)
                requires v + 1 == n;
        } else {
            assert((v + 1) % (n as int) == v + 1) by (nonlinear_arith)
                requires v + 1 < n;
        }
    }
}

/// In an open select with `n > 0` options, the up arrow moves the
/// highlight one option up and the down arrow one option down, wrapping
/// around; pressing one after the other gives the highlight back.
pub proof fn lemma_select_arrows(open: bool, selecting: Option<usize>, n: nat, key: u32)
    requires
        n <= usize::MAX,
    ensures
        open && n > 0 && key == KEY_UP && (selecting matches Some(v) ==> v < n)
            ==> spec_select_key(open, selecting, n, key).selecting == Some(match selecting {
            Some(v) => if v == 0 { (n - 1) as usize } else { (v - 1) as usize },
            None => (n - 1) as usize,
        }),
        open && n > 0 && key == KEY_DOWN && (selecting matches Some(v) ==> v < n)
            ==> spec_select_key(open, selecting, n, key).selecting == Some(match selecting {
            Some(v) => if v + 1 == n { 0 } else { (v + 1) as usize },
            None => 0,
        }),
        n > 0 && (selecting matches Some(v) && v < n) ==> spec_select_key(
            true,
            spec_select_key(true, selecting, n, KEY_UP).selecting,
            n,
            KEY_DOWN,
        ).selecting == selecting && spec_select_key(
            true,
            spec_select_key(true, selecting, n, KEY_DOWN).selecting,
            n,
            KEY_UP,
        ).selecting == selecting,
{
    if n > 0 && (selecting matches Some(v) ==> v < n) {
        lemma_cycle_steps(selecting, n);
        if let Some(v) = selecting {
            let up = if v == 0 { (n - 1) as usize } else { (v - 1) as usize };
            let down = if v + 1 == n { 0 } else { (v + 1) as usize };
            lemma_cycle_steps(Some(up), n);
            lemma_cycle_steps(Some(down), n);
        }
    }
}

/// Stepping through `m + 1` entries with wrap-around.
proof fn lemma_wrap_step(v: int, m: int)
    requires
        0 <= v <= m,
    ensures
        (v + m) % (m + 1) == if v == 0 { m } else { v - 1 },
        (v + 1) % (m + 1) == if v == m { 0 } else { v + 1 },
{
    if v == 0 {
        assert((v + m) % (m + 1) == m) by (nonlinear_arith)
            requires v == 0, m >= 0;
    } else {
        assert((v + m) % (m + 1) == v - 1) by (nonlinear_arith)
            requires 0 < v <= m;
    }
    if v == m {
        assert((v + 1) % (m + 1) == 0) by (nonlinear_arith)
            requires v == m, m >= 0;
    } else {
        assert((v + 1) % (m + 1) == v + 1) by (nonlinear_arith)
            requires 0 <= v < m;
    }
}

/// In an open select with `n` options and a null option (entry `n`), the
/// up arrow moves the highlight one entry up and the down arrow one entry
/// down through the `n + 1` entries, wrapping around; pressing one after
/// the other gives the highlight back.
pub proof fn lemma_nullable_arrows(open: bool, selecting: Option<usize>, n: nat, key: u32)
    requires
        n < usize::MAX,
    ensures
        open && key == KEY_UP && (selecting matches Some(v) ==> v <= n)
            ==> spec_nullable_select_key(open, selecting, n, key).selecting == Some(match selecting {
            Some(v) => if v == 0 { n as usize } else { (v - 1) as usize },
            None => if n > 0 { (n - 1) as usize } else { 0 },
        }),
        open && key == KEY_DOWN && (selecting matches Some(v) ==> v <= n)
            ==> spec_nullable_select_key(open, selecting, n, key).selecting == Some(match selecting {
            Some(v) => if v == n { 0 } else { (v + 1) as usize },
            None => n as usize,
        }),
        (selecting matches Some(v) && v <= n) ==> spec_nullable_select_key(
            true,
            spec_nullable_select_key(true, selecting, n, KEY_UP).selecting,
            n,
            KEY_DOWN,
        ).selecting == selecting && spec_nullable_select_key(
            true,
            spec_nullable_select_key(true, selecting, n, KEY_DOWN).selecting,
            n,
            KEY_UP,
        ).selecting == selecting,
{
    if let Some(v) = selecting {
        if v <= n {
            lemma_wrap_step(v as int, n as int);
            let up: int = if v == 0 { n as int } else { v - 1 };
            let down: int = if v == n { 0 } else { v + 1 };
            lemma_wrap_step(up, n as int);
            lemma_wrap_step(down, n as int);
        }
    }
}

/// What a key press in an open select with a null option does.
#[derive(Debug, Clone, Copy, PartialEq, Eq, Structural)]
pub struct NullableSelectKeyOutcome {
    /// The highlighted entry afterwards; the entry after the last option
    /// is the null option.
    pub selecting: Option<usize>,
    /// The choice made by the key, if any: `Some(None)` chooses the null
    /// option.
    pub chosen: Option<Option<usize>>,
    /// Whether the dropdown closes.
    pub close: bool,
    /// Whether the key's default action is suppressed.
    pub prevent_default: bool,
}

/// The effect of a key press on a select with `n` options and a null
/// option, which the highlight reaches as entry `n`. Arrows cycle through
/// the `n + 1` entries (up from nothing starts at the last option, down from
/// nothing at the null option); space or enter choose the highlighted entry
/// and close; escape or backspace close.
pub open spec fn spec_nullable_select_key(
    open: bool,
    selecting: Option<usize>,
    n: nat,
    key: u32,
) -> NullableSelectKeyOutcome {
    let none = NullableSelectKeyOutcome { selecting, chosen: None, close: false, prevent_default: false };
    if !open {
        none
    } else if key == KEY_UP {
        NullableSelectKeyOutcome {
            selecting: match selecting {
                Some(v) => Some(((v + n) % (n as int + 1)) as usize),
                None => Some(if n > 0 { (n - 1) as usize } else { 0 }),
            },
            prevent_default: true,
            ..none
        }
    } else if key == KEY_DOWN {
        NullableSelectKeyOutcome {
            selecting: match selecting {
                Some(v) => Some(((v + 1) % (n as int + 1)) as usize),
                None => Some(n as usize),
            },
            prevent_default: true,
            ..none
        }
    } else if key == KEY_SPACE || key == KEY_ENTER {
        match selecting {
            Some(i) => NullableSelectKeyOutcome {
                chosen: Some(if i < n { Some(i) } else { None }),
                close: true,
                prevent_default: true,
                ..none
            },
            None => none,
        }
    } else if key == KEY_ESCAPE || key == KEY_BACKSPACE {
        NullableSelectKeyOutcome { close: true, ..none }
    } else {
        none
    }
}

/// Handles a key press on a select with `n` options and a null option.
pub fn nullable_select_key(open: bool, selecting: Option<usize>, n: usize, key: u32) -> (r: NullableSelectKeyOutcome)
    requires
        open && (key == KEY_UP || key == KEY_DOWN) ==> n < usize::MAX,
        open && key == KEY_UP ==> (selecting matches Some(v) ==> v + n <= usize::MAX),
        open && key == KEY_DOWN ==> (selecting matches Some(v) ==> v < usize::MAX),
    ensures
        r == spec_nullable_select_key(open, selecting, n as nat, key),
        open && key == KEY_UP ==> r.selecting == Some(match selecting {
            Some(v) => if v == 0 { n } else { (v - 1) as usize },
            None => if n > 0 { (n - 1) as usize } else { 0 },
        }) || !(selecting matches Some(v) ==> v <= n),
        open && key == KEY_DOWN ==> r.selecting == Some(match selecting {
            Some(v) => if v == n { 0 } else { (v + 1) as usize },
            None => n,
        }) || !(selecting matches Some(v) ==> v <= n),
        !open ==> r.selecting == selecting && r.chosen is None && !r.close && !r.prevent_default,
        open && (key == KEY_SPACE || key == KEY_ENTER) ==> r.close == (selecting is Some) && r.selecting
            == selecting && r.chosen == match selecting {
            Some(i) => Some(if i < n { Some(i) } else { None::<usize> }),
            None => None,
        },
        open && (key == KEY_ESCAPE || key == KEY_BACKSPACE) ==> r.close && r.chosen is None && r.selecting
            == selecting,
{
    proof {
        if n < usize::MAX {
            lemma_nullable_arrows(open, selecting, n as nat, key);
        }
    }
    let none = NullableSelectKeyOutcome { selecting, chosen: None, close: false, prevent_default: false };
    if !open {
        none
    } else if key == KEY_UP {
        NullableSelectKeyOutcome {
            selecting: match selecting {
                Some(value) => Some((value + n) % (n + 1)),
                None => Some(if n > 0 { n - 1 } else { 0 }),
            },
            prevent_default: true,
            ..none
        }
    } else if key == KEY_DOWN {
        NullableSelectKeyOutcome {
            selecting: match selecting {
                Some(value) => Some((value + 1) % (n + 1)),
                None => Some(n),
            },
            prevent_default: true,
            ..none
        }
    } else if key == KEY_SPACE || key == KEY_ENTER {
        match selecting {
            Some(i) => NullableSelectKeyOutcome {
                chosen: Some(if i < n { Some(i) } else { None }),
                close: true,
                prevent_default: true,
                ..none
            },
            None => none,
        }
    } else if key == KEY_ESCAPE || key == KEY_BACKSPACE {
        NullableSelectKeyOutcome { close: true, ..none }
    } else {
        none
    }
}

} // verus!

verus! {

/// What a key press in an open chips input does.
#[derive(Debug, Clone, PartialEq)]
pub struct ChipsKeyOutcome {
    /// The selected chips afterwards, as option indices.
    pub chips: Vec<usize>,
    /// The highlighted entry of the offered options afterwards.
    pub selecting: Option<usize>,
    /// Whether the typed text is cleared.
    pub clear_text: bool,
    /// Whether the dropdown closes.
    pub close: bool,
    /// Whether the key's default action is suppressed.
    pub prevent_default: bool,
}

/// The effect of a key press on a chips input offering `possible` options:
/// arrows move the highlight through the offered options; space or enter
/// add the highlighted option (or, with nothing highlighted, the first one
/// offered) and clear the typed text; escape closes; backspace with nothing
/// typed removes the last chip.
pub open spec fn chips_key_spec(
    open: bool,
    chips: Seq<usize>,
    text_empty: bool,
    possible: Seq<usize>,
    selecting: Option<usize>,
    key: u32,
    r: ChipsKeyOutcome,
) -> bool {
    let n = possible.len();
    let (c, s, clear, close, prevent): (Seq<usize>, Option<usize>, bool, bool, bool) = if !open {
        (chips, selecting, false, false, false)
    } else if key == KEY_UP {
        (chips, if n != 0 { spec_cycle_up(selecting, n) } else { selecting }, false, false, true)
    } else if key == KEY_DOWN {
        (chips, if n != 0 { spec_cycle_down(selecting, n) } else { selecting }, false, false, true)
    } else if key == KEY_SPACE || key == KEY_ENTER {
        match selecting {
            Some(i) => (chips.push(possible[i as int]), None, true, false, true),
            None => if n > 0 {
                (chips.push(possible[0]), selecting, true, false, true)
            } else {
                (chips, selecting, false, false, false)
            },
        }
    } else if key == KEY_ESCAPE {
        (chips, selecting, false, true, false)
    } else if key == KEY_BACKSPACE && text_empty && chips.len() > 0 {
        (chips.drop_last(), selecting, false, false, false)
    } else {
        (chips, selecting, false, false, false)
    };
    &&& r.chips@ == c
    &&& r.selecting == s
    &&& r.clear_text == clear
    &&& r.close == close
    &&& r.prevent_default == prevent
}

/// Handles a key press on a chips input.
pub fn chips_key(
    open: bool,
    chips: Vec<usize>,
    text_empty: bool,
    possible: &Vec<usize>,
    selecting: Option<usize>,
    key: u32,
) -> (r: ChipsKeyOutcome)
    requires
        open && possible@.len() > 0 && key == KEY_UP ==> (selecting matches Some(v) ==> v + possible@.len() <= usize::MAX),
        open && possible@.len() > 0 && key == KEY_DOWN ==> (selecting matches Some(v) ==> v < usize::MAX),
        open && (key == KEY_SPACE || key == KEY_ENTER) ==> (selecting matches Some(i) ==> i < possible@.len()),
    ensures
        chips_key_spec(open, chips@, text_empty, possible@, selecting, key, r),
        open && possible@.len() > 0 && key == KEY_UP && (selecting matches Some(v) ==> v < possible@.len())
            ==> r.selecting == Some(match selecting {
            Some(v) => if v == 0 { (possible@.len() - 1) as usize } else { (v - 1) as usize },
            None => (possible@.len() - 1) as usize,
        }),
        open && possible@.len() > 0 && key == KEY_DOWN && (selecting matches Some(v) ==> v < possible@.len())
            ==> r.selecting == Some(match selecting {
            Some(v) => if v + 1 == possible@.len() { 0 } else { (v + 1) as usize },
            None => 0,
        }),
        open && (key == KEY_UP || key == KEY_DOWN) ==> r.chips@ == chips@,
        !open ==> r.chips@ == chips@ && r.selecting == selecting && !r.clear_text && !r.close,
        forall|i: usize| open && (key == KEY_SPACE || key == KEY_ENTER) && selecting == Some(i) ==> r.chips@
            == chips@.push(possible@[i as int]) && r.clear_text && r.selecting is None && !r.close,
        open && (key == KEY_SPACE || key == KEY_ENTER) && selecting is None ==> if possible@.len() > 0 {
            r.chips@ == chips@.push(possible@[0]) && r.clear_text && !r.close
        } else {
            r.chips@ == chips@ && !r.clear_text
        },
        open && key == KEY_ESCAPE ==> r.close && r.chips@ == chips@ && r.selecting == selecting,
        open && key == KEY_BACKSPACE ==> r.chips@ == if text_empty && chips@.len() > 0 {
            chips@.drop_last()
        } else {
            chips@
        } && !r.close && r.selecting == selecting,
{
    let num_offered = possible.len();
    proof {
        if num_offered > 0 && (selecting matches Some(v) ==> v < num_offered) {
            lemma_cycle_steps(selecting, num_offered as nat);
        }
    }
    let n = possible.len();
    let mut chips = chips;
    if !open {
        ChipsKeyOutcome { chips, selecting, clear_text: false, close: false, prevent_default: false }
    } else if key == KEY_UP {
        let s = if n != 0 { cycle_up(selecting, n) } else { selecting };
        ChipsKeyOutcome { chips, selecting: s, clear_text: false, close: false, prevent_default: true }
    } else if key == KEY_DOWN {
        let s = if n != 0 { cycle_down(selecting, n) } else { selecting };
        ChipsKeyOutcome { chips, selecting: s, clear_text: false, close: false, prevent_default: true }
    } else if key == KEY_SPACE || key == KEY_ENTER {
        match selecting {
            Some(i) => {
                chips.push(possible[i]);
                ChipsKeyOutcome { chips, selecting: None, clear_text: true, close: false, prevent_default: true }
            },
            None => if n > 0 {
                chips.push(possible[0]);
                ChipsKeyOutcome { chips, selecting, clear_text: true, close: false, prevent_default: true }
            } else {
                ChipsKeyOutcome { chips, selecting, clear_text: false, close: false, prevent_default: false }
            },
        }
    } else if key == KEY_ESCAPE {
        ChipsKeyOutcome { chips, selecting, clear_text: false, close: true, prevent_default: false }
    } else if key == KEY_BACKSPACE && text_empty && chips.len() > 0 {
        chips.pop();
        ChipsKeyOutcome { chips, selecting, clear_text: false, close: false, prevent_default: false }
    } else {
        ChipsKeyOutcome { chips, selecting, clear_text: false, close: false, prevent_default: false }
    }
}

} // verus!

verus! {

/// In a chips input, a highlight that designates an offered option keeps
/// designating one whatever key is pressed, and a key adds only an offered
/// option: the chips afterwards are those before, perhaps one more that was
/// offered, perhaps the last one fewer.
pub proof fn lemma_chips_key_adds_offered(
    open: bool,
    chips: Seq<usize>,
    text_empty: bool,
    possible: Seq<usize>,
    selecting: Option<usize>,
    key: u32,
    r: ChipsKeyOutcome,
)
    requires
        possible.len() <= usize::MAX,
        selecting matches Some(v) ==> v < possible.len(),
        chips_key_spec(open, chips, text_empty, possible, selecting, key, r),
    ensures
        r.selecting matches Some(w) ==> w < possible.len(),
        r.chips@ == chips
            || (r.chips@.len() == chips.len() + 1 && r.chips@.drop_last() == chips && possible.contains(r.chips@.last()))
            || (chips.len() > 0 && r.chips@ == chips.drop_last()),
{
    let n = possible.len();
    if n > 0 {
        if let Some(v) = selecting {
            assert((v + n - 1) % (n as int) < n) by (nonlinear_arith)
                requires n > 0, v < n;
            assert((v + 1) % (n as int) < n) by (nonlinear_arith)
                requires n > 0;
        }
    }
    if open && (key == KEY_SPACE || key == KEY_ENTER) {
        match selecting {
            Some(i) => {
                assert(r.chips@.drop_last() =~= chips);
                assert(possible[i as int] == r.chips@.last());
            },
            None => if n > 0 {
                assert(r.chips@.drop_last() =~= chips);
                assert(possible[0] == r.chips@.last());
            },
        }
    }
}

} // verus!

verus! {

/// In an open chips input offering `n > 0` options, the up arrow moves the
/// highlight one option up and the down arrow one option down, wrapping
/// around, leaving the chips alone; pressing up and then down (or down and
/// then up) gives the highlight back.
pub proof fn lemma_chips_arrows(
    chips: Seq<usize>,
    text_empty: bool,
    possible: Seq<usize>,
    v: usize,
    key: u32,
    r1: ChipsKeyOutcome,
    r2: ChipsKeyOutcome,
)
    requires
        0 < possible.len() <= usize::MAX,
        v < possible.len(),
        key == KEY_UP || key == KEY_DOWN,
        chips_key_spec(true, chips, text_empty, possible, Some(v), key, r1),
        chips_key_spec(true, r1.chips@, text_empty, possible, r1.selecting, if key == KEY_UP { KEY_DOWN } else { KEY_UP }, r2),
    ensures
        r1.chips@ == chips,
        key == KEY_UP ==> r1.selecting == Some(if v == 0 { (possible.len() - 1) as usize } else { (v - 1) as usize }),
        key == KEY_DOWN ==> r1.selecting == Some(if v + 1 == possible.len() { 0 } else { (v + 1) as usize }),
        r2.chips@ == chips,
        r2.selecting == Some(v),
{
    let n = possible.len();
    lemma_cycle_steps(Some(v), n);
    let up = if v == 0 { (n - 1) as usize } else { (v - 1) as usize };
    let down = if v + 1 == n { 0 } else { (v + 1) as usize };
    lemma_cycle_steps(Some(up), n);
    lemma_cycle_steps(Some(down), n);
}

} // verus!
