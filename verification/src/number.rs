use vstd::prelude::*;
use crate::numtext::{decimal_text, parse_int_text, lemma_decimal_text_parses};
use vstd::utf8::{encode_utf8, decode_utf8, is_char_boundary};
use vstd::string::StringSliceAdditionalSpecFns;
use crate::text::{chars_of, string_of};

verus! {

/// A numeric type that a number input can hold: one of the integer
/// primitives, seen through its mathematical value.
pub trait Number: Copy + Sized {
    /// The mathematical value of the number.
    spec fn spec_int(self) -> int;

    /// The smallest value of the type.
    spec fn spec_lo() -> int;

    /// The largest value of the type.
    spec fn spec_hi() -> int;

    /// Whether the type has negative values (and so accepts a `-` sign).
    spec fn spec_signed() -> bool;

    /// Whether the type has a fractional part.
    spec fn spec_decimal() -> bool;

    /// The type's range holds zero and is non-empty; it has negative values
    /// exactly when it is signed; no integer type has a fractional part.
    proof fn lemma_bounds()
        ensures
            Self::spec_lo() <= 0 <= Self::spec_hi(),
            Self::spec_signed() == (Self::spec_lo() < 0),
            !Self::spec_decimal(),
    ;

    /// Every value lies in the type's range.
    proof fn lemma_in_range(x: Self)
        ensures
            Self::spec_lo() <= x.spec_int() <= Self::spec_hi(),
    ;

    /// Values are told apart by their mathematical value.
    proof fn lemma_injective(x: Self, y: Self)
        ensures
            x.spec_int() == y.spec_int() ==> x == y,
    ;

    /// The smallest value of the type.
    fn number_min() -> (r: Self)
        ensures
            r.spec_int() == Self::spec_lo(),
    ;

    /// The largest value of the type.
    fn number_max() -> (r: Self)
        ensures
            r.spec_int() == Self::spec_hi(),
    ;

    /// The type's default value, zero.
    fn zero() -> (r: Self)
        ensures
            r.spec_int() == 0,
    ;

    /// Whether the type has a fractional part.
    fn is_decimal() -> (r: bool)
        ensures
            r == Self::spec_decimal(),
    ;

    /// `self < other`.
    fn less_than(&self, other: &Self) -> (r: bool)
        ensures
            r == (self.spec_int() < other.spec_int()),
    ;

    /// Parses a text as the standard library parses the type.
    fn parse_text(s: &str) -> (r: Option<Self>)
        ensures
            r is Some <==> parse_int_text(s@, Self::spec_lo(), Self::spec_hi(), Self::spec_signed()) is Some,
            r matches Some(x) ==> parse_int_text(s@, Self::spec_lo(), Self::spec_hi(), Self::spec_signed())
                == Some(x.spec_int()),
    ;

    /// Displays the number in decimal.
    fn to_text(&self) -> (r: String)
        ensures
            r@ == decimal_text(self.spec_int()),
    ;
}

} // verus!

verus! {

/// `i` is the position of the first `.` byte.
pub open spec fn is_first_dot(b: Seq<u8>, i: int) -> bool {
    &&& 0 <= i < b.len()
    &&& b[i] == 46
    &&& forall|j: int| 0 <= j < i ==> b[j] != 46
}

/// Where shortening cuts a text's bytes: just after `decimals` bytes past the
/// first `.`, when the text runs on beyond that point.
pub open spec fn shorten_cut(b: Seq<u8>, decimals: nat) -> Option<int> {
    if exists|i: int| is_first_dot(b, i) {
        let i = choose|i: int| is_first_dot(b, i);
        if i + decimals < b.len() { Some(i + decimals + 1) } else { None }
    } else {
        None
    }
}

/// The bytes of a text shortened to `decimals` places after its first `.`.
pub open spec fn shorten_bytes(b: Seq<u8>, decimals: nat) -> Seq<u8> {
    match shorten_cut(b, decimals) {
        Some(k) => b.take(k),
        None => b,
    }
}

/// Shortening the text cuts it between two characters, not inside one.
pub open spec fn cuts_cleanly(s: Seq<char>, decimals: nat) -> bool {
    shorten_cut(encode_utf8(s), decimals) matches Some(k) ==> is_char_boundary(encode_utf8(s), k)
}

/// Whether shortening the text to `decimals` places cuts it cleanly between
/// two characters (which [`shorten_to`] requires).
pub fn shorten_to_is_clean(value_str: &str, decimals: u16) -> (r: bool)
    ensures
        r == cuts_cleanly(value_str@, decimals as nat),
{
    let bytes = value_str.as_bytes();
    let ghost b = value_str.spec_bytes();
    let mut i: usize = 0;
    while i < bytes.len() && bytes[i] != 46u8
        invariant
            bytes@ == b,
            i <= b.len(),
            forall|j: int| 0 <= j < i ==> b[j] != 46,
        decreases bytes.len() - i,
    {
        i = i + 1;
    }
    proof {
        if i < b.len() {
            assert(is_first_dot(b, i as int));
            let c = choose|c: int| is_first_dot(b, c);
            if c < i {
                assert(b[c] != 46);
            }
            if c > i {
                assert(b[i as int] != 46);
            }
        } else {
            assert(!exists|c: int| is_first_dot(b, c));
        }
    }
    if i < bytes.len() && (decimals as usize) < bytes.len() - i {
        value_str.is_char_boundary(i + (decimals as usize) + 1)
    } else {
        true
    }
}

/// The characters of a text shortened to `decimals` places.
pub open spec fn shorten_text(s: Seq<char>, decimals: nat) -> Seq<char> {
    decode_utf8(shorten_bytes(encode_utf8(s), decimals))
}

/// Shortens a number to a specified number of decimal places. The count is
/// taken in bytes after the first `.`; a cut that would fall inside a
/// character is left out by the precondition.
pub fn shorten_to(value_str: &str, decimals: u16) -> (r: String)
    requires
        cuts_cleanly(value_str@, decimals as nat),
    ensures
        encode_utf8(r@) == shorten_bytes(value_str.spec_bytes(), decimals as nat),
        r@ == shorten_text(value_str@, decimals as nat),
{
    let bytes = value_str.as_bytes();
    let ghost b = value_str.spec_bytes();
    let mut i: usize = 0;
    while i < bytes.len() && bytes[i] != 46u8
        invariant
            bytes@ == b,
            i <= b.len(),
            forall|j: int| 0 <= j < i ==> b[j] != 46,
        decreases bytes.len() - i,
    {
        i = i + 1;
    }
    proof {
        broadcast use vstd::utf8::encode_utf8_decode_utf8;
        if i < b.len() {
            assert(is_first_dot(b, i as int));
            let c = choose|c: int| is_first_dot(b, c);
            if c < i {
                assert(b[c] != 46);
            }
            if c > i {
                assert(b[i as int] != 46);
            }
        } else {
            assert(!exists|c: int| is_first_dot(b, c));
        }
    }
    if i < bytes.len() && (decimals as usize) < bytes.len() - i {
        let (head, _) = value_str.split_at(i + (decimals as usize) + 1);
        let r = head.to_owned();
        proof {
            broadcast use vstd::utf8::encode_utf8_decode_utf8;
            assert(encode_utf8(r@) == b.take(i + decimals + 1));
        }
        r
    } else {
        let r = value_str.to_owned();
        proof {
            broadcast use vstd::utf8::encode_utf8_decode_utf8;
        }
        r
    }
}

} // verus!

verus! {

/// The adjustments made to a shortened number text: a lone `-` is dropped;
/// a `-` typed at the end toggles the sign (removing a leading `-`, or
/// moving the trailing one to the front); a leading `0` is dropped before
/// anything but a `.`, both at the start and after a leading `-`.
pub open spec fn adjust_number_text(s: Seq<char>) -> Seq<char> {
    let s1 = if s == seq!['-'] { Seq::<char>::empty() } else { s };
    let s2 = if s1.len() > 0 && s1.last() == '-' {
        if s1[0] == '-' {
            s1.subrange(1, s1.len() - 1)
        } else {
            seq!['-'] + s1.drop_last()
        }
    } else {
        s1
    };
    let s3 = if s2.len() > 1 && s2[0] == '0' && s2[1] != '.' { s2.drop_first() } else { s2 };
    if s3.len() > 2 && s3[0] == '-' && s3[1] == '0' && s3[2] != '.' {
        seq!['-'] + s3.subrange(2, s3.len() as int)
    } else {
        s3
    }
}

/// The text that a number input keeps of a typed text.
pub open spec fn transform_text(s: Seq<char>, decimals: nat) -> Seq<char> {
    adjust_number_text(shorten_text(s, decimals))
}

fn adjust_chars(s: Vec<char>) -> (r: Vec<char>)
    ensures
        r@ == adjust_number_text(s@),
{
    let mut v = s;
    if v.len() == 1 && v[0] == '-' {
        assert(v@ =~= seq!['-']);
        v = Vec::new();
    } else {
        assert(v@ != seq!['-']);
    }
    let ghost s1 = v@;
    if v.len() > 0 && v[v.len() - 1] == '-' {
        if v[0] == '-' {
            let mut w: Vec<char> = Vec::new();
            let mut i: usize = 1;
            while i + 1 < v.len()
                invariant
                    1 <= i <= v.len() - 1,
                    v@ == s1,
                    s1.len() >= 1,
                    w@ =~= s1.subrange(1, i as int),
                decreases v.len() - i,
            {
                w.push(v[i]);
                i = i + 1;
            }
            v = w;
        } else {
            let mut w: Vec<char> = Vec::new();
            w.push('-');
            let mut i: usize = 0;
            while i + 1 < v.len()
                invariant
                    i <= v.len() - 1,
                    v@ == s1,
                    s1.len() >= 1,
                    w@ =~= seq!['-'] + s1.subrange(0, i as int),
                decreases v.len() - i,
            {
                w.push(v[i]);
                i = i + 1;
            }
            v = w;
        }
    }
    let ghost s2 = v@;
    if v.len() > 1 && v[0] == '0' && v[1] != '.' {
        v.remove(0);
        assert(v@ =~= s2.drop_first());
    }
    let ghost s3 = v@;
    if v.len() > 2 && v[0] == '-' && v[1] == '0' && v[2] != '.' {
        v.remove(1);
        assert(v@ =~= seq!['-'] + s3.subrange(2, s3.len() as int));
    }
    v
}

/// Transforms a string representation of a number as needed: shortens it
/// to `decimals` places, then adjusts it as [`adjust_number_text`] says.
pub fn transform_number(value_str: &str, decimals: u16) -> (r: String)
    requires
        cuts_cleanly(value_str@, decimals as nat),
    ensures
        r@ == transform_text(value_str@, decimals as nat),
{
    let shortened = shorten_to(value_str, decimals);
    let chars = chars_of(shortened.as_str());
    let adjusted = adjust_chars(chars);
    string_of(&adjusted)
}

} // verus!

verus! {

/// How many times `c` occurs in `s`.
pub open spec fn count_char(s: Seq<char>, c: char) -> nat
    decreases s.len(),
{
    if s.len() == 0 {
        0
    } else {
        count_char(s.drop_last(), c) + if s.last() == c { 1nat } else { 0nat }
    }
}

/// A text parsed as a value of `N`, then held to `min..=max`: the value and
/// whether it had to be moved into range.
pub open spec fn clamp_parse<N: Number>(s: Seq<char>, min: int, max: int) -> Option<(int, bool)> {
    match parse_int_text(s, N::spec_lo(), N::spec_hi(), N::spec_signed()) {
        Some(v) => if v < min {
            Some((min, true))
        } else if v > max {
            Some((max, true))
        } else {
            Some((v, false))
        },
        None => None,
    }
}

/// A number input's text read as a value of `N`: an empty text stands for
/// zero (and asks for its text to be replaced); a fractional type ignores a
/// trailing `.` that is the only one; otherwise as [`clamp_parse`].
pub open spec fn parse_number_spec<N: Number>(s: Seq<char>, min: int, max: int) -> Option<(int, bool)> {
    if s.len() == 0 {
        Some((0, true))
    } else if N::spec_decimal() && s.last() == '.' && count_char(s, '.') == 1 {
        clamp_parse::<N>(s.drop_last(), min, max)
    } else {
        clamp_parse::<N>(s, min, max)
    }
}

/// Parses the value of a string representation of a number in a text input
/// box, moving it into `min..=max`; the flag tells whether it was moved.
pub fn parse_number_value<N: Number>(value_str: &str, min: N, max: N) -> (r: Option<(N, bool)>)
    ensures
        r is Some <==> clamp_parse::<N>(value_str@, min.spec_int(), max.spec_int()) is Some,
        r matches Some((v, b)) ==> clamp_parse::<N>(value_str@, min.spec_int(), max.spec_int())
            == Some((v.spec_int(), b)),
{
    match N::parse_text(value_str) {
        Some(value) => {
            if value.less_than(&min) {
                Some((min, true))
            } else if max.less_than(&value) {
                Some((max, true))
            } else {
                Some((value, false))
            }
        },
        None => None,
    }
}

fn count_dots(s: &Vec<char>) -> (r: usize)
    ensures
        r == count_char(s@, '.'),
{
    let mut n: usize = 0;
    let mut i: usize = 0;
    while i < s.len()
        invariant
            i <= s.len(),
            n == count_char(s@.take(i as int), '.'),
            n <= i,
        decreases s.len() - i,
    {
        assert(s@.take(i + 1).drop_last() =~= s@.take(i as int));
        if s[i] == '.' {
            n = n + 1;
        }
        i = i + 1;
    }
    assert(s@.take(s.len() as int) =~= s@);
    n
}

/// Parses a string representation of a number in a text input box.
pub fn parse_number<N: Number>(value_str: &str, min: N, max: N) -> (r: Option<(N, bool)>)
    ensures
        r is Some <==> parse_number_spec::<N>(value_str@, min.spec_int(), max.spec_int()) is Some,
        r matches Some((v, b)) ==> parse_number_spec::<N>(value_str@, min.spec_int(), max.spec_int())
            == Some((v.spec_int(), b)),
{
    if value_str.is_empty() {
        return Some((N::zero(), true));
    }
    let chars = chars_of(value_str);
    if N::is_decimal() && chars[chars.len() - 1] == '.' && count_dots(&chars) == 1 {
        let mut head = chars;
        head.pop();
        assert(head@ =~= value_str@.drop_last());
        let head_str = string_of(&head);
        parse_number_value(head_str.as_str(), min, max)
    } else {
        parse_number_value(value_str, min, max)
    }
}

} // verus!

verus! {

/// A wrapper around a number state: the text shown in the input box and the
/// value it stands for, with the bounds and precision the input enforces.
#[derive(Debug, Clone, PartialEq)]
pub struct NumberState<N: Number> {
    /// The inner state string.
    state: String,
    /// The inner state value.
    value: N,
    /// The minimum value.
    min: N,
    /// The maximum value.
    max: N,
    /// The maximum number of digits after the decimal.
    decimals: u16,
}

impl<N: Number> NumberState<N> {
    /// The text shown in the input box.
    pub closed spec fn spec_text(&self) -> Seq<char> {
        self.state@
    }

    /// The value the input holds.
    pub closed spec fn spec_value(&self) -> int {
        self.value.spec_int()
    }

    /// The minimum value.
    pub closed spec fn spec_min(&self) -> int {
        self.min.spec_int()
    }

    /// The maximum value.
    pub closed spec fn spec_max(&self) -> int {
        self.max.spec_int()
    }

    /// The maximum number of digits after the decimal.
    pub closed spec fn spec_decimals(&self) -> nat {
        self.decimals as nat
    }

    /// Creates a new number state holding `value`, with the type's full range
    /// and no limit on decimals.
    pub fn new(value: N) -> (r: Self)
        ensures
            r.spec_text() == decimal_text(value.spec_int()),
            r.spec_value() == value.spec_int(),
            r.spec_min() == N::spec_lo(),
            r.spec_max() == N::spec_hi(),
            r.spec_decimals() == u16::MAX,
    {
        Self::default().value(value)
    }

    /// Sets the state value, and shows it.
    pub fn value(self, value: N) -> (r: Self)
        ensures
            r.spec_text() == decimal_text(value.spec_int()),
            r.spec_value() == value.spec_int(),
            r.spec_min() == self.spec_min(),
            r.spec_max() == self.spec_max(),
            r.spec_decimals() == self.spec_decimals(),
    {
        let mut s = self;
        s.state = value.to_text();
        s.value = value;
        s
    }

    /// Sets the minimum value.
    pub fn min(self, min: N) -> (r: Self)
        ensures
            r.spec_text() == self.spec_text(),
            r.spec_value() == self.spec_value(),
            r.spec_min() == min.spec_int(),
            r.spec_max() == self.spec_max(),
            r.spec_decimals() == self.spec_decimals(),
    {
        let mut s = self;
        s.min = min;
        s
    }

    /// Sets the maximum value.
    pub fn max(self, max: N) -> (r: Self)
        ensures
            r.spec_text() == self.spec_text(),
            r.spec_value() == self.spec_value(),
            r.spec_min() == self.spec_min(),
            r.spec_max() == max.spec_int(),
            r.spec_decimals() == self.spec_decimals(),
    {
        let mut s = self;
        s.max = max;
        s
    }

    /// Sets the maximum number of digits after the decimal.
    pub fn decimals(self, decimals: u16) -> (r: Self)
        ensures
            r.spec_text() == self.spec_text(),
            r.spec_value() == self.spec_value(),
            r.spec_min() == self.spec_min(),
            r.spec_max() == self.spec_max(),
            r.spec_decimals() == decimals as nat,
    {
        let mut s = self;
        s.decimals = decimals;
        s
    }

    /// The maximum number of digits after the decimal.
    pub fn decimal_places(&self) -> (r: u16)
        ensures
            r == self.spec_decimals(),
    {
        self.decimals
    }

    /// The value the input holds.
    pub fn number(&self) -> (r: N)
        ensures
            r.spec_int() == self.spec_value(),
    {
        self.value
    }

    /// Sets the inner state from a newly typed text. The text is transformed
    /// and parsed; when it parses, the kept text is the transformed one, or
    /// the display of the parsed value when that had to be replaced (empty,
    /// or out of range), and the value is read back from the kept text. A
    /// text that does not parse leaves the state unchanged.
    pub fn set(&mut self, new_value_str: &str)
        requires
            cuts_cleanly(new_value_str@, old(self).spec_decimals()),
        ensures
            ({
                let t = transform_text(new_value_str@, old(self).spec_decimals());
                match parse_number_spec::<N>(t, old(self).spec_min(), old(self).spec_max()) {
                    Some((v, replaced)) => {
                        &&& final(self).spec_text() == if replaced { decimal_text(v) } else { t }
                        &&& parse_number_spec::<N>(final(self).spec_text(), old(self).spec_min(), old(self).spec_max())
                            matches Some((w, _)) && final(self).spec_value() == w
                        &&& final(self).spec_min() == old(self).spec_min()
                        &&& final(self).spec_max() == old(self).spec_max()
                        &&& final(self).spec_decimals() == old(self).spec_decimals()
                    },
                    None => *final(self) == *old(self),
                }
            }),
    {
        let new_value_transformed = transform_number(new_value_str, self.decimals);
        let maybe_new_value = parse_number(new_value_transformed.as_str(), self.min, self.max);

        if let Some((new_value, update_repr)) = maybe_new_value {
            if !update_repr {
                self.state = new_value_transformed;
            } else {
                self.state = new_value.to_text();
                proof {
                    N::lemma_bounds();
                    N::lemma_in_range(new_value);
                    lemma_decimal_text_parses(new_value.spec_int(), N::spec_lo(), N::spec_hi(), N::spec_signed());
                }
            }
            let reparsed = parse_number(self.state.as_str(), self.min, self.max);
            self.value = reparsed.unwrap().0;
        }
    }

    /// The text to show: the kept text, or the display of zero when it is
    /// empty.
    pub fn to_string(&self) -> (r: String)
        ensures
            r@ == if self.spec_text().len() == 0 { decimal_text(0) } else { self.spec_text() },
    {
        if self.state.as_str().is_empty() {
            N::zero().to_text()
        } else {
            self.state.clone()
        }
    }
}

impl<N: Number> core::ops::Deref for NumberState<N> {
    type Target = N;

    /// The value the input holds.
    fn deref(&self) -> (r: &N)
        ensures
            r.spec_int() == self.spec_value(),
    {
        &self.value
    }
}

impl<N: Number> core::borrow::Borrow<N> for NumberState<N> {
    /// The value the input holds.
    fn borrow(&self) -> &N {
        &self.value
    }
}

impl<N: Number> From<N> for NumberState<N> {
    /// A number state holding `value`, as [`NumberState::new`] makes it.
    fn from(value: N) -> (r: Self)
        ensures
            r.spec_text() == decimal_text(value.spec_int()),
            r.spec_value() == value.spec_int(),
            r.spec_min() == N::spec_lo(),
            r.spec_max() == N::spec_hi(),
            r.spec_decimals() == u16::MAX,
    {
        Self::new(value)
    }
}

impl<N: Number> vstd::std_specs::convert::FromSpecImpl<N> for NumberState<N> {
    open spec fn obeys_from_spec() -> bool {
        false
    }

    open spec fn from_spec(v: N) -> Self {
        arbitrary()
    }
}

impl<N: Number> Default for NumberState<N> {
    fn default() -> (r: Self)
        ensures
            r.spec_text() == Seq::<char>::empty(),
            r.spec_value() == 0,
            r.spec_min() == N::spec_lo(),
            r.spec_max() == N::spec_hi(),
            r.spec_decimals() == u16::MAX,
    {
        NumberState {
            state: String::new(),
            value: N::zero(),
            min: N::number_min(),
            max: N::number_max(),
            decimals: u16::MAX,
        }
    }
}

} // verus!

verus! {

/// Every number's display parses back to the number itself.
pub proof fn lemma_display_parses<N: Number>(x: N)
    ensures
        parse_int_text(decimal_text(x.spec_int()), N::spec_lo(), N::spec_hi(), N::spec_signed())
            == Some(x.spec_int()),
{
    N::lemma_bounds();
    N::lemma_in_range(x);
    lemma_decimal_text_parses(x.spec_int(), N::spec_lo(), N::spec_hi(), N::spec_signed());
}

/// Whatever text a number input accepts, the value it then holds lies within
/// its bounds (when the bounds are in order): the kept text always reads
/// back as a value in `min..=max`.
pub proof fn lemma_kept_value_in_bounds<N: Number>(t: Seq<char>, min: N, max: N)
    requires
        min.spec_int() <= max.spec_int(),
        parse_number_spec::<N>(t, min.spec_int(), max.spec_int()) is Some,
    ensures
        ({
            let (v, replaced) = parse_number_spec::<N>(t, min.spec_int(), max.spec_int())->0;
            let kept = if replaced { decimal_text(v) } else { t };
            parse_number_spec::<N>(kept, min.spec_int(), max.spec_int()) matches Some((w, _))
                && min.spec_int() <= w <= max.spec_int()
        }),
{
    N::lemma_bounds();
    N::lemma_in_range(min);
    N::lemma_in_range(max);
    let (v, replaced) = parse_number_spec::<N>(t, min.spec_int(), max.spec_int())->0;
    if replaced {
        lemma_decimal_text_parses(v, N::spec_lo(), N::spec_hi(), N::spec_signed());
    }
}

} // verus!
