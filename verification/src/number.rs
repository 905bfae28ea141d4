use crate::text::chars_of;
use vstd::prelude::*;

verus! {

/// `c` is one of the ten digits.
pub open spec fn is_digit(c: char) -> bool {
    '0' <= c && c <= '9'
}

/// `c` is a plus or a minus.
pub open spec fn is_sign(c: char) -> bool {
    c == '+' || c == '-'
}

/// `c` is the letter that opens an exponent.
pub open spec fn is_exponent_mark(c: char) -> bool {
    c == 'e' || c == 'E'
}

/// The first position at or after `from` that holds no digit.
pub open spec fn digits_end(s: Seq<char>, from: int) -> int
    decreases s.len() - from,
{
    if 0 <= from < s.len() && is_digit(s[from]) {
        digits_end(s, from + 1)
    } else {
        from
    }
}

/// `s` spells the word, each letter in either case.
pub open spec fn is_word(s: Seq<char>, lower: Seq<char>, upper: Seq<char>) -> bool {
    &&& s.len() == lower.len()
    &&& s.len() == upper.len()
    &&& forall|i: int| 0 <= i < s.len() ==> s[i] == lower[i] || s[i] == #[trigger] upper[i]
}

/// What a number literal denotes, its sign apart.
pub enum Magnitude {
    NotANumber,
    Infinite,
    /// The digits before and after the point, and the power of ten that
    /// follows them.
    Finite {
        int_digits: Seq<char>,
        frac_digits: Seq<char>,
        exp_negative: bool,
        exp_digits: Seq<char>,
    },
}

/// What a number literal denotes.
pub struct Reading {
    pub negative: bool,
    pub magnitude: Magnitude,
}

/// Reads `s` from position `from` on as a literal without sign:
/// `nan`, `inf` or `infinity` in any case, or digits with at most one point
/// and at least one digit, then possibly `e` or `E`, a sign and digits.
pub open spec fn read_magnitude(s: Seq<char>, from: int) -> Option<Magnitude> {
    let body = s.skip(from);
    if is_word(body, "nan"@, "NAN"@) {
        Some(Magnitude::NotANumber)
    } else if is_word(body, "inf"@, "INF"@) || is_word(body, "infinity"@, "INFINITY"@) {
        Some(Magnitude::Infinite)
    } else {
        let int_end = digits_end(s, from);
        let frac_start = if int_end < s.len() && s[int_end] == '.' {
            int_end + 1
        } else {
            int_end
        };
        let frac_end = digits_end(s, frac_start);
        let signed = frac_end + 1 < s.len() && is_sign(s[frac_end + 1]);
        let exp_start = if signed {
            frac_end + 2
        } else {
            frac_end + 1
        };
        if (int_end - from) + (frac_end - frac_start) == 0 {
            None
        } else if frac_end == s.len() {
            Some(
                Magnitude::Finite {
                    int_digits: s.subrange(from, int_end),
                    frac_digits: s.subrange(frac_start, frac_end),
                    exp_negative: false,
                    exp_digits: Seq::empty(),
                },
            )
        } else if is_exponent_mark(s[frac_end]) && exp_start < s.len() && digits_end(s, exp_start)
            == s.len() {
            Some(
                Magnitude::Finite {
                    int_digits: s.subrange(from, int_end),
                    frac_digits: s.subrange(frac_start, frac_end),
                    exp_negative: signed && s[frac_end + 1] == '-',
                    exp_digits: s.subrange(exp_start, s.len() as int),
                },
            )
        } else {
            None
        }
    }
}

/// Reads the whole of `s` as a number literal: a sign, if any, then the
/// magnitude.
pub open spec fn read_literal(s: Seq<char>) -> Option<Reading> {
    let signed = s.len() > 0 && is_sign(s[0]);
    match read_magnitude(s, if signed { 1 } else { 0 }) {
        Some(magnitude) => Some(Reading { negative: signed && s[0] == '-', magnitude }),
        None => None,
    }
}

/// `s` is a number literal.
pub open spec fn is_number_literal(s: Seq<char>) -> bool {
    read_literal(s).is_some()
}

fn digit_at(v: &Vec<char>, i: usize) -> (r: bool)
    ensures
        r == (i < v.len() && is_digit(v@[i as int])),
{
    i < v.len() && '0' <= v[i] && v[i] <= '9'
}

fn scan_digits(v: &Vec<char>, from: usize) -> (end: usize)
    requires
        from <= v.len(),
    ensures
        end == digits_end(v@, from as int),
        from <= end <= v.len(),
        forall|i: int| from <= i < end ==> is_digit(v@[i]),
{
    let mut k = from;
    while digit_at(v, k)
        invariant
            from <= k <= v.len(),
            digits_end(v@, from as int) == digits_end(v@, k as int),
            forall|i: int| from <= i < k ==> is_digit(v@[i]),
        decreases v.len() - k,
    {
        k = k + 1;
    }
    k
}

fn spells(v: &Vec<char>, from: usize, lower: &str, upper: &str) -> (r: bool)
    requires
        from <= v.len(),
    ensures
        r == is_word(v@.skip(from as int), lower@, upper@),
{
    let lo = chars_of(lower);
    let up = chars_of(upper);
    if v.len() - from != lo.len() || lo.len() != up.len() {
        return false;
    }
    let n = lo.len();
    let ghost body = v@.skip(from as int);
    for i in 0..n
        invariant
            n == lo.len(),
            n == up.len(),
            lo@ == lower@,
            up@ == upper@,
            from + n == v.len(),
            body == v@.skip(from as int),
            forall|j: int| 0 <= j < i ==> body[j] == lo@[j] || body[j] == #[trigger] up@[j],
    {
        if v[from + i] != lo[i] && v[from + i] != up[i] {
            assert(body[i as int] == v@[from + i]);
            return false;
        }
        assert(body[i as int] == v@[from + i]);
    }
    true
}

fn scan_magnitude(v: &Vec<char>, from: usize) -> (r: bool)
    requires
        from <= v.len(),
    ensures
        r == read_magnitude(v@, from as int) is Some,
{
    if spells(v, from, "nan", "NAN") {
        return true;
    }
    if spells(v, from, "inf", "INF") || spells(v, from, "infinity", "INFINITY") {
        return true;
    }
    let n = v.len();
    let int_end = scan_digits(v, from);
    let frac_start = if int_end < n && v[int_end] == '.' {
        int_end + 1
    } else {
        int_end
    };
    let frac_end = scan_digits(v, frac_start);
    if int_end - from == 0 && frac_end - frac_start == 0 {
        return false;
    }
    if frac_end == n {
        return true;
    }
    if v[frac_end] != 'e' && v[frac_end] != 'E' {
        return false;
    }
    let signed = frac_end + 1 < n && (v[frac_end + 1] == '+' || v[frac_end + 1] == '-');
    let exp_start = if signed {
        frac_end + 2
    } else {
        frac_end + 1
    };
    exp_start < n && scan_digits(v, exp_start) == n
}

/// Tells whether the characters `v` make a number literal.
pub fn scan_literal(v: &Vec<char>) -> (r: bool)
    ensures
        r == is_number_literal(v@),
{
    let signed = v.len() > 0 && (v[0] == '+' || v[0] == '-');
    let from: usize = if signed {
        1
    } else {
        0
    };
    scan_magnitude(v, from)
}

/// Tells whether `s` is a number literal.
pub fn is_number_text(s: &str) -> (r: bool)
    ensures
        r == is_number_literal(s@),
{
    let v = chars_of(s);
    scan_literal(&v)
}

} // verus!
