use vstd::prelude::*;
use crate::text::{chars_of, to_lowercase, lowercase_text, is_ascii_char, ascii_lower_text};

verus! {

/// `idx` places the characters of `v`, in order, at strictly increasing
/// positions of `o`.
pub open spec fn embeds(idx: Seq<int>, v: Seq<char>, o: Seq<char>) -> bool {
    &&& idx.len() == v.len()
    &&& forall|k: int| 0 <= k < v.len() ==> 0 <= #[trigger] idx[k] < o.len() && o[idx[k]] == v[k]
    &&& forall|a: int, b: int| 0 <= a < b < idx.len() ==> #[trigger] idx[a] < #[trigger] idx[b]
}

/// `v` can be read off `o` by skipping characters of `o`.
pub open spec fn is_subsequence(v: Seq<char>, o: Seq<char>) -> bool {
    exists|idx: Seq<int>| embeds(idx, v, o)
}

/// `k` is the length of the shortest prefix of `o` that holds `v` as a
/// subsequence.
pub open spec fn shortest_holding_prefix(v: Seq<char>, o: Seq<char>, k: nat) -> bool {
    &&& k <= o.len()
    &&& is_subsequence(v, o.take(k as int))
    &&& forall|j: nat| j < k ==> !is_subsequence(v, #[trigger] o.take(j as int))
}

/// The score of a typed value `v` against an option `o`, both already
/// lowercased: 0 for equal texts; otherwise, when `v` is a non-empty
/// subsequence of `o`, the length of the shortest prefix of `o` holding it
/// (smaller is a stronger match); `None` when they do not match.
pub open spec fn match_score(o: Seq<char>, v: Seq<char>) -> Option<nat> {
    if o == v {
        Some(0)
    } else if v.len() > 0 && is_subsequence(v, o) {
        Some(choose|k: nat| shortest_holding_prefix(v, o, k))
    } else {
        None
    }
}

/// The score of a typed value against an option, compared without regard to
/// case: the [`match_score`] of their lowercased texts.
pub open spec fn option_match_spec(option: Seq<char>, value: Seq<char>) -> Option<nat> {
    match_score(lowercase_text(option), lowercase_text(value))
}

proof fn lemma_subsequence_grows(v: Seq<char>, o: Seq<char>, a: int, b: int)
    requires
        0 <= a <= b <= o.len(),
        is_subsequence(v, o.take(a)),
    ensures
        is_subsequence(v, o.take(b)),
{
    let idx = choose|idx: Seq<int>| #[trigger] embeds(idx, v, o.take(a));
    assert(embeds(idx, v, o.take(b)));
}

proof fn lemma_subsequence_prefix(v: Seq<char>, o: Seq<char>, j: int)
    requires
        0 <= j <= v.len(),
        is_subsequence(v, o),
    ensures
        is_subsequence(v.take(j), o),
{
    let idx = choose|idx: Seq<int>| #[trigger] embeds(idx, v, o);
    assert(embeds(idx.take(j), v.take(j), o));
}

proof fn lemma_greedy_miss(v: Seq<char>, o: Seq<char>, i: int, j: int)
    requires
        0 <= i < o.len(),
        0 <= j < v.len(),
        o[i] != v[j],
        !is_subsequence(v.take(j + 1), o.take(i)),
    ensures
        !is_subsequence(v.take(j + 1), o.take(i + 1)),
{
    if is_subsequence(v.take(j + 1), o.take(i + 1)) {
        let idx = choose|idx: Seq<int>| #[trigger] embeds(idx, v.take(j + 1), o.take(i + 1));
        assert(idx[j] < i + 1);
        if idx[j] == i {
            assert(o.take(i + 1)[i] == v.take(j + 1)[j]);
            assert(false);
        }
        assert forall|k: int| 0 <= k < j + 1 implies 0 <= #[trigger] idx[k] < o.take(i).len()
            && o.take(i)[idx[k]] == v.take(j + 1)[k] by {
            if k < j {
                assert(idx[k] < idx[j]);
            }
        }
        assert(embeds(idx, v.take(j + 1), o.take(i)));
    }
}

/// Scores two lowercased texts as [`match_score`] says: the option's
/// characters are walked once, each typed character being matched at the
/// first place it occurs after the previous match.
pub fn match_lowered(o: &Vec<char>, v: &Vec<char>) -> (r: Option<usize>)
    ensures
        match r {
            Some(s) => match_score(o@, v@) == Some(s as nat),
            None => match_score(o@, v@) is None,
        },
{
    let mut equal = o.len() == v.len();
    let mut e: usize = 0;
    while equal && e < o.len()
        invariant
            e <= o.len(),
            equal ==> o.len() == v.len(),
            equal ==> forall|k: int| 0 <= k < e ==> o@[k] == v@[k],
            !equal ==> o@ != v@,
        decreases o.len() - e,
    {
        if o[e] != v[e] {
            equal = false;
        }
        e = e + 1;
    }
    if equal {
        assert(o@ =~= v@);
        return Some(0);
    }
    let mut score: usize = 0;
    let mut since_last: usize = 0;
    let mut i: usize = 0;
    let mut j: usize = 0;
    let ghost mut idx: Seq<int> = Seq::empty();
    assert(embeds(idx, v@.take(0), o@.take(0)));
    assert(v.len() > 0 ==> !is_subsequence(v@.take(1), o@.take(0))) by {
        if v.len() > 0 && is_subsequence(v@.take(1), o@.take(0)) {
            let w = choose|w: Seq<int>| #[trigger] embeds(w, v@.take(1), o@.take(0));
            assert(0 <= w[0] < o@.take(0).len());
        }
    }
    while i < o.len() && j < v.len()
        invariant
            o@ != v@,
            i <= o.len(),
            j <= v.len(),
            j <= i,
            embeds(idx, v@.take(j as int), o@.take(i as int)),
            j > 0 ==> score == idx[j - 1] + 1,
            j == 0 ==> score == 0,
            since_last == i - score,
            score <= i,
            j < v.len() ==> !is_subsequence(v@.take(j + 1), o@.take(i as int)),
            j == v.len() && j > 0 ==> !is_subsequence(v@, o@.take(idx[j - 1])),
        decreases o.len() - i,
    {
        since_last = since_last + 1;
        if o[i] == v[j] {
            proof {
                assert(v@.take(j + 1) =~= v@.take(j as int).push(v@[j as int]));
                let nidx = idx.push(i as int);
                assert forall|k: int| 0 <= k < j + 1 implies 0 <= #[trigger] nidx[k] < o@.take(i + 1).len()
                    && o@.take(i + 1)[nidx[k]] == v@.take(j + 1)[k] by {
                    if k < j {
                        assert(idx[k] < i);
                    }
                }
                assert(embeds(nidx, v@.take(j + 1), o@.take(i + 1)));
                if j + 1 == v.len() {
                    assert(v@.take(j + 1) =~= v@);
                }
                idx = nidx;
            }
            score = score + since_last;
            since_last = 0;
            j = j + 1;
            proof {
                if j < v.len() {
                    if is_subsequence(v@.take(j + 1), o@.take(i + 1)) {
                        let w = choose|w: Seq<int>| #[trigger] embeds(w, v@.take(j + 1), o@.take(i + 1));
                        assert(w[j - 1] < w[j as int]);
                        assert(w[j as int] < i + 1);
                        assert forall|k: int| 0 <= k < j implies 0 <= #[trigger] w[k] < o@.take(i as int).len()
                            && o@.take(i as int)[w[k]] == v@.take(j as int)[k] by {
                            if k < j - 1 {
                                assert(w[k] < w[j - 1]);
                            }
                        }
                        assert(embeds(w.take(j as int), v@.take(j as int), o@.take(i as int)));
                        assert(false);
                    }
                }
            }
        } else {
            proof {
                lemma_greedy_miss(v@, o@, i as int, j as int);
                assert forall|k: int| 0 <= k < j implies 0 <= #[trigger] idx[k] < o@.take(i + 1).len()
                    && o@.take(i + 1)[idx[k]] == v@.take(j as int)[k] by {
                }
            }
        }
        i = i + 1;
    }
    if j > 0 && j == v.len() {
        proof {
            let k = score as nat;
            assert(v@.take(j as int) =~= v@);
            assert forall|q: int| 0 <= q < v.len() implies 0 <= #[trigger] idx[q] < o@.take(k as int).len()
                && o@.take(k as int)[idx[q]] == v@[q] by {
                if q < j - 1 {
                    assert(idx[q] < idx[j - 1]);
                }
            }
            assert(embeds(idx, v@, o@.take(k as int)));
            assert forall|q: nat| q < k implies !is_subsequence(v@, #[trigger] o@.take(q as int)) by {
                if is_subsequence(v@, o@.take(q as int)) {
                    lemma_subsequence_grows(v@, o@, q as int, k - 1);
                }
            }
            lemma_subsequence_grows(v@, o@, k as int, o.len() as int);
            assert(o@.take(o.len() as int) =~= o@);
            assert(shortest_holding_prefix(v@, o@, k));
            let c = choose|c: nat| shortest_holding_prefix(v@, o@, c);
            if c < k {
                assert(!is_subsequence(v@, o@.take(c as int)));
            }
            if k < c {
                assert(!is_subsequence(v@, o@.take(k as int)));
            }
        }
        Some(score)
    } else {
        proof {
            if v.len() > 0 && is_subsequence(v@, o@) {
                assert(j < v.len());
                assert(o@.take(i as int) =~= o@);
                lemma_subsequence_prefix(v@, o@, j + 1);
            }
        }
        None
    }
}

/// Compares an option to a typed out value, returning a score indicating the
/// strength of the match, or `None` if the strings do not match. The
/// comparison ignores case.
pub fn option_match(option: &str, value: &str) -> (r: Option<usize>)
    ensures
        match r {
            Some(s) => option_match_spec(option@, value@) == Some(s as nat),
            None => option_match_spec(option@, value@) is None,
        },
        (forall|i: int| 0 <= i < option@.len() ==> is_ascii_char(#[trigger] option@[i]))
            && (forall|i: int| 0 <= i < value@.len() ==> is_ascii_char(#[trigger] value@[i])) ==> match r {
            Some(s) => match_score(ascii_lower_text(option@), ascii_lower_text(value@)) == Some(s as nat),
            None => match_score(ascii_lower_text(option@), ascii_lower_text(value@)) is None,
        },
{
    let option_lower = to_lowercase(option);
    let value_lower = to_lowercase(value);
    let o = chars_of(option_lower.as_str());
    let v = chars_of(value_lower.as_str());
    match_lowered(&o, &v)
}

} // verus!

verus! {

/// How many options a display limit lets through.
pub open spec fn limited_len(len: nat, display_limit: Option<usize>) -> nat {
    match display_limit {
        Some(limit) => if len > limit { limit as nat } else { len },
        None => len,
    }
}

/// Limits the number of options: the first `display_limit` of them, or all
/// of them when there is no limit or fewer options than it.
pub fn limit_options<T>(options: &[T], display_limit: Option<usize>) -> (r: &[T])
    ensures
        r@ == options@.take(limited_len(options@.len(), display_limit) as int),
{
    let limit_index = if let Some(display_limit) = display_limit {
        if options.len() > display_limit {
            display_limit
        } else {
            options.len()
        }
    } else {
        options.len()
    };
    &options[0..limit_index]
}

/// Option `i` may still be offered: it exists, it is not selected, and it
/// matches what the user has begun to type (anything matches an empty text).
pub open spec fn is_possible(all: Seq<String>, selected: Seq<usize>, next: Seq<char>, i: int) -> bool {
    &&& 0 <= i < all.len()
    &&& !selected.contains(i as usize)
    &&& (next.len() == 0 || option_match_spec(all[i]@, next) is Some)
}

/// The rank of option `i`: its match score against the typed text, or 0
/// while nothing is typed.
pub open spec fn option_rank(all: Seq<String>, next: Seq<char>, i: int) -> int {
    if next.len() == 0 {
        0
    } else {
        match option_match_spec(all[i]@, next) {
            Some(s) => s as int,
            None => 0,
        }
    }
}

/// Option `a` is offered before option `b`: a stronger match first, and
/// among equal matches the one listed first.
pub open spec fn offered_before(all: Seq<String>, next: Seq<char>, a: int, b: int) -> bool {
    option_rank(all, next, a) < option_rank(all, next, b)
        || (option_rank(all, next, a) == option_rank(all, next, b) && a < b)
}

/// `r` lists, best first, the options that may still be offered, cut at the
/// display limit.
pub open spec fn is_offer_list(
    all: Seq<String>,
    selected: Seq<usize>,
    next: Seq<char>,
    display_limit: Option<usize>,
    r: Seq<usize>,
) -> bool {
    &&& forall|k: int| 0 <= k < r.len() ==> is_possible(all, selected, next, #[trigger] r[k] as int)
    &&& forall|a: int, b: int|
        0 <= a < b < r.len() ==> offered_before(all, next, #[trigger] r[a] as int, #[trigger] r[b] as int)
    &&& (display_limit matches Some(l) ==> r.len() <= l)
    &&& forall|i: int|
        is_possible(all, selected, next, i) && !r.contains(i as usize) ==> {
            &&& display_limit matches Some(l) && r.len() == l
            &&& r.len() > 0 ==> offered_before(all, next, r.last() as int, i)
        }
}

fn contains_index(v: &[usize], x: usize) -> (r: bool)
    ensures
        r == v@.contains(x),
{
    let mut i: usize = 0;
    while i < v.len()
        invariant
            i <= v.len(),
            forall|k: int| 0 <= k < i ==> v@[k] != x,
        decreases v.len() - i,
    {
        if v[i] == x {
            assert(v@[i as int] == x);
            return true;
        }
        i = i + 1;
    }
    false
}

/// Returns a list of possible options, taking into account the complete list
/// of options, the currently selected options, and the option the user has
/// begun to type out. Nothing is offered once `max_selections` options are
/// selected.
pub fn get_possible_options(
    all_options: &[String],
    selected_options_indices: &[usize],
    next_option: &str,
    display_limit: Option<usize>,
    max_selections: Option<usize>,
) -> (r: Vec<usize>)
    ensures
        (max_selections matches Some(m) && selected_options_indices@.len() >= m) ==> r@.len() == 0,
        !(max_selections matches Some(m) && selected_options_indices@.len() >= m) ==> is_offer_list(
            all_options@,
            selected_options_indices@,
            next_option@,
            display_limit,
            r@,
        ),
{
    if let Some(max_selections) = max_selections {
        if selected_options_indices.len() >= max_selections {
            return Vec::new();
        }
    }
    let ghost all = all_options@;
    let ghost sel = selected_options_indices@;
    let ghost next = next_option@;
    let typed = !next_option.is_empty();
    // (index, score) pairs of the options found so far, best first
    let mut ranked: Vec<(usize, usize)> = Vec::new();
    let mut i: usize = 0;
    while i < all_options.len()
        invariant
            all == all_options@,
            sel == selected_options_indices@,
            next == next_option@,
            typed == (next.len() > 0),
            i <= all.len(),
            forall|k: int| 0 <= k < ranked@.len() ==> {
                &&& is_possible(all, sel, next, #[trigger] ranked@[k].0 as int)
                &&& ranked@[k].0 < i
                &&& ranked@[k].1 == option_rank(all, next, ranked@[k].0 as int)
            },
            forall|a: int, b: int|
                0 <= a < b < ranked@.len() ==> offered_before(all, next, #[trigger] ranked@[a].0 as int, #[trigger] ranked@[b].0 as int),
            forall|j: int| 0 <= j < i && is_possible(all, sel, next, j) ==> exists|k: int| 0 <= k < ranked@.len() && #[trigger] ranked@[k].0 == j,
        decreases all_options.len() - i,
    {
        if !contains_index(selected_options_indices, i) {
            let score_opt: Option<usize> = if typed {
                option_match(all_options[i].as_str(), next_option)
            } else {
                Some(0)
            };
            if let Some(score) = score_opt {
                let mut p: usize = 0;
                while p < ranked.len() && ranked[p].1 <= score
                    invariant
                        p <= ranked@.len(),
                        forall|k: int| 0 <= k < p ==> #[trigger] ranked@[k].1 <= score,
                    decreases ranked.len() - p,
                {
                    p = p + 1;
                }
                let ghost old_ranked = ranked@;
                ranked.insert(p, (i, score));
                proof {
                    assert(option_rank(all, next, i as int) == score);
                    assert(is_possible(all, sel, next, i as int));
                    assert forall|k: int| 0 <= k < ranked@.len() implies {
                        &&& is_possible(all, sel, next, #[trigger] ranked@[k].0 as int)
                        &&& ranked@[k].0 < i + 1
                        &&& ranked@[k].1 == option_rank(all, next, ranked@[k].0 as int)
                    } by {
                        if k < p {
                            assert(ranked@[k] == old_ranked[k]);
                        } else if k > p {
                            assert(ranked@[k] == old_ranked[k - 1]);
                        }
                    }
                    assert forall|a: int, b: int| 0 <= a < b < ranked@.len() implies offered_before(
                        all, next, #[trigger] ranked@[a].0 as int, #[trigger] ranked@[b].0 as int) by {
                        if b < p {
                            assert(ranked@[a] == old_ranked[a] && ranked@[b] == old_ranked[b]);
                        } else if b == p {
                            assert(ranked@[a] == old_ranked[a]);
                            assert(old_ranked[a].1 <= score);
                        } else if a < p {
                            assert(ranked@[a] == old_ranked[a] && ranked@[b] == old_ranked[b - 1]);
                        } else if a == p {
                            assert(ranked@[b] == old_ranked[b - 1]);
                            assert(!(old_ranked[p as int].1 <= score));
                            if b - 1 > p {
                                assert(offered_before(all, next, old_ranked[p as int].0 as int, old_ranked[b - 1].0 as int));
                            }
                        } else {
                            assert(ranked@[a] == old_ranked[a - 1] && ranked@[b] == old_ranked[b - 1]);
                        }
                    }
                    assert forall|j: int| 0 <= j < i + 1 && is_possible(all, sel, next, j) implies exists|k: int|
                        0 <= k < ranked@.len() && #[trigger] ranked@[k].0 == j by {
                        if j == i {
                            assert(ranked@[p as int].0 == j);
                        } else {
                            let k = choose|k: int| 0 <= k < old_ranked.len() && #[trigger] old_ranked[k].0 == j;
                            if k < p {
                                assert(ranked@[k].0 == j);
                            } else {
                                assert(ranked@[k + 1].0 == j);
                            }
                        }
                    }
                }
            } else {
                proof {
                    assert(!is_possible(all, sel, next, i as int));
                }
            }
        } else {
            proof {
                assert(sel.contains(i));
                assert(!is_possible(all, sel, next, i as int));
            }
        }
        i = i + 1;
    }
    let ghost keep = limited_len(ranked@.len(), display_limit);
    let keep_exec: usize = match display_limit {
        Some(limit) => if ranked.len() > limit { limit } else { ranked.len() },
        None => ranked.len(),
    };
    let mut r: Vec<usize> = Vec::new();
    let mut q: usize = 0;
    while q < keep_exec
        invariant
            keep_exec == keep,
            keep <= ranked@.len(),
            q <= keep_exec,
            r@.len() == q,
            forall|k: int| 0 <= k < q ==> r@[k] == #[trigger] ranked@[k].0,
        decreases keep_exec - q,
    {
        r.push(ranked[q].0);
        q = q + 1;
    }
    proof {
        assert forall|a: int, b: int| 0 <= a < b < r@.len() implies offered_before(
            all, next, #[trigger] r@[a] as int, #[trigger] r@[b] as int) by {
            assert(r@[a] == ranked@[a].0 && r@[b] == ranked@[b].0);
        }
        assert forall|k: int| 0 <= k < r@.len() implies is_possible(all, sel, next, #[trigger] r@[k] as int) by {
            assert(r@[k] == ranked@[k].0);
        }
        assert forall|j: int| is_possible(all, sel, next, j) && !r@.contains(j as usize) implies {
            &&& display_limit matches Some(l) && r@.len() == l
            &&& r@.len() > 0 ==> offered_before(all, next, r@.last() as int, j)
        } by {
            let k = choose|k: int| 0 <= k < ranked@.len() && #[trigger] ranked@[k].0 == j;
            if k < keep {
                assert(r@[k] == j as usize);
                assert(false);
            }
            if r@.len() > 0 {
                assert(r@.last() == ranked@[keep - 1].0);
                assert(offered_before(all, next, ranked@[keep - 1].0 as int, ranked@[k].0 as int));
            }
        }
    }
    r
}

} // verus!

verus! {

proof fn lemma_too_short(v: Seq<char>, o: Seq<char>)
    requires
        o.len() < v.len(),
    ensures
        !is_subsequence(v, o),
{
    if is_subsequence(v, o) {
        let idx = choose|idx: Seq<int>| #[trigger] embeds(idx, v, o);
        assert forall|k: int| 0 <= k < v.len() implies k <= #[trigger] idx[k] by {
            lemma_embedding_grows(idx, v, o, k);
        }
        assert(v.len() - 1 <= idx[v.len() - 1]);
        assert(idx[v.len() - 1] < o.len());
    }
}

proof fn lemma_embedding_grows(idx: Seq<int>, v: Seq<char>, o: Seq<char>, k: int)
    requires
        embeds(idx, v, o),
        0 <= k < v.len(),
    ensures
        k <= idx[k],
    decreases k,
{
    if k > 0 {
        lemma_embedding_grows(idx, v, o, k - 1);
        assert(idx[k - 1] < idx[k]);
    } else {
        assert(0 <= idx[0]);
    }
}

proof fn lemma_shortest_exists(v: Seq<char>, o: Seq<char>, m: nat)
    requires
        m <= o.len(),
        is_subsequence(v, o.take(m as int)),
    ensures
        exists|k: nat| shortest_holding_prefix(v, o, k),
    decreases m,
{
    if m == 0 {
        assert(shortest_holding_prefix(v, o, 0));
    } else if is_subsequence(v, o.take(m - 1)) {
        lemma_shortest_exists(v, o, (m - 1) as nat);
    } else {
        assert forall|j: nat| j < m implies !is_subsequence(v, #[trigger] o.take(j as int)) by {
            if is_subsequence(v, o.take(j as int)) {
                lemma_subsequence_grows(v, o, j as int, m - 1);
            }
        }
        assert(shortest_holding_prefix(v, o, m));
    }
}

/// A score of zero, the best there is, means that the texts are equal.
pub proof fn lemma_zero_score_iff_equal(o: Seq<char>, v: Seq<char>)
    ensures
        match_score(o, v) == Some(0nat) <==> o == v,
{
    if o != v && v.len() > 0 && is_subsequence(v, o) {
        assert(o.take(o.len() as int) =~= o);
        lemma_shortest_exists(v, o, o.len());
        let k = choose|k: nat| shortest_holding_prefix(v, o, k);
        if k == 0 {
            lemma_too_short(v, o.take(0));
        }
    }
}

/// An option that begins with a non-empty typed text matches it, scoring the
/// length of the typed text (zero when the texts are equal).
pub proof fn lemma_prefix_matches(o: Seq<char>, v: Seq<char>)
    requires
        0 < v.len() <= o.len(),
        o.take(v.len() as int) == v,
    ensures
        match_score(o, v) == Some(if o == v { 0 } else { v.len() }),
{
    if o != v {
        let n = v.len();
        let idx = Seq::new(n, |k: int| k);
        assert(embeds(idx, v, o.take(n as int)));
        assert forall|j: nat| j < n implies !is_subsequence(v, #[trigger] o.take(j as int)) by {
            lemma_too_short(v, o.take(j as int));
        }
        assert(shortest_holding_prefix(v, o, n));
        assert(is_subsequence(v, o.take(n as int)));
        lemma_subsequence_grows(v, o, n as int, o.len() as int);
        assert(o.take(o.len() as int) =~= o);
        let k = choose|k: nat| shortest_holding_prefix(v, o, k);
        if k < n {
            assert(!is_subsequence(v, o.take(k as int)));
        }
        if k > n {
            assert(!is_subsequence(v, o.take(n as int)));
        }
    }
}

} // verus!
