use vstd::prelude::*;
use crate::keys::{chips_key_spec, lemma_chips_key_adds_offered, ChipsKeyOutcome};
use crate::matching::{is_offer_list, is_possible};

verus! {

/// The chips of a chips input are in order: no option is chosen twice,
/// each is one of the `n` options, and there are no more than
/// `max_selections` of them.
pub open spec fn chips_valid(chips: Seq<usize>, n: nat, max_selections: Option<usize>) -> bool {
    &&& forall|a: int, b: int| 0 <= a < b < chips.len() ==> #[trigger] chips[a] != #[trigger] chips[b]
    &&& forall|k: int| 0 <= k < chips.len() ==> #[trigger] chips[k] < n
    &&& (max_selections matches Some(m) ==> chips.len() <= m)
}

/// `possible` is what a chips input offers while `chips` are chosen and
/// `next` is typed, as [`crate::matching::get_possible_options`] computes
/// it: nothing once the maximum is reached, else the offer list.
pub open spec fn offers_for(
    all: Seq<String>,
    chips: Seq<usize>,
    next: Seq<char>,
    display_limit: Option<usize>,
    max_selections: Option<usize>,
    possible: Seq<usize>,
) -> bool {
    if max_selections matches Some(m) && chips.len() >= m {
        possible.len() == 0
    } else {
        is_offer_list(all, chips, next, display_limit, possible)
    }
}

/// A click on the offered option at position `k` of `possible`: the chips
/// with that option added at the end, and the typed text, which the click
/// clears.
pub fn pick_offered(chips: Vec<usize>, possible: &Vec<usize>, k: usize) -> (r: (Vec<usize>, String))
    requires
        k < possible@.len(),
    ensures
        r.0@ == chips@.push(possible@[k as int]),
        r.1@ == Seq::<char>::empty(),
{
    let mut chips = chips;
    chips.push(possible[k]);
    (chips, String::new())
}

/// The chips after the chip at `index` is removed with its button.
pub fn remove_chip(chips: Vec<usize>, index: usize) -> (r: Vec<usize>)
    requires
        index < chips@.len(),
    ensures
        r@ == chips@.remove(index as int),
{
    let mut chips = chips;
    chips.remove(index);
    chips
}

/// Adding an offered option keeps the chips in order.
proof fn lemma_push_offered_valid(
    all: Seq<String>,
    chips: Seq<usize>,
    next: Seq<char>,
    display_limit: Option<usize>,
    max_selections: Option<usize>,
    possible: Seq<usize>,
    x: usize,
)
    requires
        chips_valid(chips, all.len(), max_selections),
        offers_for(all, chips, next, display_limit, max_selections, possible),
        possible.contains(x),
    ensures
        chips_valid(chips.push(x), all.len(), max_selections),
{
    let k = choose|k: int| 0 <= k < possible.len() && possible[k] == x;
    assert(!(max_selections matches Some(m) && chips.len() >= m));
    assert(is_possible(all, chips, next, possible[k] as int));
    let c = chips.push(x);
    assert forall|a: int, b: int| 0 <= a < b < c.len() implies #[trigger] c[a] != #[trigger] c[b] by {
        if b == chips.len() {
            assert(c[b] == x);
            assert(c[a] == chips[a]);
            assert(!chips.contains(x));
            if chips[a] == x {
                assert(chips.contains(x));
            }
        } else {
            assert(c[a] == chips[a] && c[b] == chips[b]);
        }
    }
    assert forall|j: int| 0 <= j < c.len() implies #[trigger] c[j] < all.len() by {
        if j < chips.len() {
            assert(c[j] == chips[j]);
        }
    }
}

/// Removing a chip keeps the chips in order.
proof fn lemma_remove_valid(chips: Seq<usize>, n: nat, max_selections: Option<usize>, i: int)
    requires
        chips_valid(chips, n, max_selections),
        0 <= i < chips.len(),
    ensures
        chips_valid(chips.remove(i), n, max_selections),
{
    let c = chips.remove(i);
    assert forall|a: int, b: int| 0 <= a < b < c.len() implies #[trigger] c[a] != #[trigger] c[b] by {
        let a2 = if a < i { a } else { a + 1 };
        let b2 = if b < i { b } else { b + 1 };
        assert(c[a] == chips[a2] && c[b] == chips[b2]);
    }
    assert forall|j: int| 0 <= j < c.len() implies #[trigger] c[j] < n by {
        let j2 = if j < i { j } else { j + 1 };
        assert(c[j] == chips[j2]);
    }
}

/// Whatever the user does to a chips input (click an offered option,
/// remove a chip with its button, or press a key: space or enter to add,
/// backspace to drop the last chip, arrows, escape), chips that were in
/// order stay in order: no option twice, only existing options, and no
/// more than `max_selections`. The offers are those of the current chips,
/// and a highlight designates an offered option.
pub proof fn lemma_chips_stay_valid(
    all: Seq<String>,
    chips: Seq<usize>,
    next: Seq<char>,
    display_limit: Option<usize>,
    max_selections: Option<usize>,
    possible: Seq<usize>,
    open: bool,
    text_empty: bool,
    selecting: Option<usize>,
    key: u32,
    r: ChipsKeyOutcome,
)
    requires
        chips_valid(chips, all.len(), max_selections),
        offers_for(all, chips, next, display_limit, max_selections, possible),
        possible.len() <= usize::MAX,
    ensures
        forall|k: int| 0 <= k < possible.len() ==> chips_valid(
            #[trigger] chips.push(possible[k]),
            all.len(),
            max_selections,
        ),
        forall|i: int| 0 <= i < chips.len() ==> chips_valid(#[trigger] chips.remove(i), all.len(), max_selections),
        (selecting matches Some(v) ==> v < possible.len()) && chips_key_spec(
            open,
            chips,
            text_empty,
            possible,
            selecting,
            key,
            r,
        ) ==> chips_valid(r.chips@, all.len(), max_selections),
{
    assert forall|k: int| 0 <= k < possible.len() implies chips_valid(
        #[trigger] chips.push(possible[k]),
        all.len(),
        max_selections,
    ) by {
        assert(possible.contains(possible[k]));
        lemma_push_offered_valid(all, chips, next, display_limit, max_selections, possible, possible[k]);
    }
    assert forall|i: int| 0 <= i < chips.len() implies chips_valid(
        #[trigger] chips.remove(i),
        all.len(),
        max_selections,
    ) by {
        lemma_remove_valid(chips, all.len(), max_selections, i);
    }
    if (selecting matches Some(v) ==> v < possible.len()) && chips_key_spec(
        open,
        chips,
        text_empty,
        possible,
        selecting,
        key,
        r,
    ) {
        lemma_chips_key_adds_offered(open, chips, text_empty, possible, selecting, key, r);
        if r.chips@ == chips {
        } else if r.chips@.len() == chips.len() + 1 && r.chips@.drop_last() == chips && possible.contains(
            r.chips@.last(),
        ) {
            lemma_push_offered_valid(all, chips, next, display_limit, max_selections, possible, r.chips@.last());
            assert(r.chips@ =~= chips.push(r.chips@.last()));
        } else {
            lemma_remove_valid(chips, all.len(), max_selections, chips.len() - 1);
            assert(chips.drop_last() =~= chips.remove(chips.len() - 1));
        }
    }
}

} // verus!
