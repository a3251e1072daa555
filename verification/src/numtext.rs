use vstd::prelude::*;

verus! {

/// The character is an ASCII decimal digit.
pub open spec fn is_digit(c: char) -> bool {
    '0' <= c && c <= '9'
}

/// Every character is an ASCII decimal digit.
pub open spec fn all_digits(s: Seq<char>) -> bool {
    forall|i: int| 0 <= i < s.len() ==> is_digit(#[trigger] s[i])
}

/// The value of a string of decimal digits.
pub open spec fn digits_value(s: Seq<char>) -> nat
    decreases s.len(),
{
    if s.len() == 0 {
        0
    } else {
        digits_value(s.drop_last()) * 10 + ((s.last() as int - '0' as int) as nat)
    }
}

/// The decimal digit for `d`.
pub open spec fn digit_char(d: nat) -> char {
    if d == 0 { '0' }
    else if d == 1 { '1' }
    else if d == 2 { '2' }
    else if d == 3 { '3' }
    else if d == 4 { '4' }
    else if d == 5 { '5' }
    else if d == 6 { '6' }
    else if d == 7 { '7' }
    else if d == 8 { '8' }
    else { '9' }
}

/// The shortest decimal digit string of `n`.
pub open spec fn digits_text(n: nat) -> Seq<char>
    decreases n,
{
    if n < 10 {
        seq![digit_char(n)]
    } else {
        digits_text(n / 10).push(digit_char(n % 10))
    }
}

/// How an integer is displayed: an optional `-` followed by its shortest
/// decimal digit string.
pub open spec fn decimal_text(v: int) -> Seq<char> {
    if v < 0 {
        seq!['-'] + digits_text((-v) as nat)
    } else {
        digits_text(v as nat)
    }
}

/// The integer that a text spells in the grammar that the standard library
/// parses integers with: an optional `+` (or, for `signed` types, `-`)
/// followed by one or more decimal digits, and nothing else.
pub open spec fn int_text_value(s: Seq<char>, signed: bool) -> Option<int> {
    if s.len() > 0 && s[0] == '+' {
        let d = s.drop_first();
        if d.len() > 0 && all_digits(d) { Some(digits_value(d) as int) } else { None }
    } else if s.len() > 0 && s[0] == '-' && signed {
        let d = s.drop_first();
        if d.len() > 0 && all_digits(d) { Some(-(digits_value(d) as int)) } else { None }
    } else if s.len() > 0 && all_digits(s) {
        Some(digits_value(s) as int)
    } else {
        None
    }
}

/// What the standard library makes of a text when parsing it as an integer
/// type whose values are `lo..=hi`: the spelled integer when the text is well
/// formed and the integer fits, and an error otherwise.
pub open spec fn parse_int_text(s: Seq<char>, lo: int, hi: int, signed: bool) -> Option<int> {
    match int_text_value(s, signed) {
        Some(v) => if lo <= v && v <= hi { Some(v) } else { None },
        None => None,
    }
}

proof fn lemma_digit_char(d: nat)
    requires
        d < 10,
    ensures
        is_digit(digit_char(d)),
        digit_char(d) as int - '0' as int == d,
{
}

/// The digits of `n` read back as `n`.
pub proof fn lemma_digits_text(n: nat)
    ensures
        digits_text(n).len() > 0,
        all_digits(digits_text(n)),
        digits_value(digits_text(n)) == n,
    decreases n,
{
    if n < 10 {
        lemma_digit_char(n);
        assert(digits_text(n).drop_last() =~= Seq::<char>::empty());
        assert(digits_value(Seq::<char>::empty()) == 0);
        assert(digits_text(n).last() == digit_char(n));
    } else {
        lemma_digits_text(n / 10);
        lemma_digit_char(n % 10);
        let s = digits_text(n / 10);
        assert(digits_text(n).drop_last() =~= s);
        assert(digits_text(n).last() == digit_char(n % 10));
        assert(digits_value(digits_text(n)) == digits_value(s) * 10 + n % 10);
        assert(n == (n / 10) * 10 + n % 10);
        assert forall|i: int| 0 <= i < digits_text(n).len() implies is_digit(#[trigger] digits_text(n)[i]) by {
            if i < s.len() {
                assert(digits_text(n)[i] == s[i]);
            }
        }
    }
}

/// A displayed integer parses back to itself, whenever it fits the type and
/// is not negative for an unsigned type.
pub proof fn lemma_decimal_text_parses(v: int, lo: int, hi: int, signed: bool)
    requires
        lo <= v <= hi,
        v < 0 ==> signed,
    ensures
        parse_int_text(decimal_text(v), lo, hi, signed) == Some(v),
        decimal_text(v).len() > 0,
{
    if v < 0 {
        lemma_digits_text((-v) as nat);
        assert(decimal_text(v).drop_first() =~= digits_text((-v) as nat));
        assert(decimal_text(v)[0] == '-');
    } else {
        lemma_digits_text(v as nat);
        let s = digits_text(v as nat);
        assert(is_digit(s[0]));
    }
}

} // verus!
