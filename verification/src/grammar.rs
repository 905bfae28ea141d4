use crate::number::{
    digits_end, is_digit, is_exponent_mark, is_number_literal, is_sign, is_word, read_literal,
    read_magnitude, Magnitude, Reading,
};
use vstd::prelude::*;

verus! {

/// Every character of `s` is a digit.
pub open spec fn all_digits(s: Seq<char>) -> bool {
    forall|i: int| 0 <= i < s.len() ==> is_digit(#[trigger] s[i])
}

/// `s` is a sign or nothing.
pub open spec fn is_optional_sign(s: Seq<char>) -> bool {
    s.len() == 0 || (s.len() == 1 && is_sign(s[0]))
}

/// `s` is one of the words for a value that is no finite number.
pub open spec fn is_special(s: Seq<char>) -> bool {
    is_word(s, "nan"@, "NAN"@) || is_word(s, "inf"@, "INF"@) || is_word(
        s,
        "infinity"@,
        "INFINITY"@,
    )
}

/// `s` is an exponent made of these parts: the mark, a sign or none, and
/// at least one digit.
pub open spec fn exponent_of(s: Seq<char>, mark: char, sign: Seq<char>, digits: Seq<char>) -> bool {
    &&& s == seq![mark] + sign + digits
    &&& is_exponent_mark(mark)
    &&& is_optional_sign(sign)
    &&& all_digits(digits)
    &&& digits.len() > 0
}

/// `s` is an exponent or nothing.
pub open spec fn is_optional_exponent(s: Seq<char>) -> bool {
    s.len() == 0 || exists|mark: char, sign: Seq<char>, digits: Seq<char>|
        exponent_of(s, mark, sign, digits)
}

/// `s` is a number made of these parts: digits, a point or none, digits,
/// and an exponent or none; without a point there are no digits behind it,
/// and in all there is at least one digit before the exponent.
pub open spec fn number_of(
    s: Seq<char>,
    whole: Seq<char>,
    point: Seq<char>,
    fraction: Seq<char>,
    exponent: Seq<char>,
) -> bool {
    &&& s == whole + point + fraction + exponent
    &&& all_digits(whole)
    &&& all_digits(fraction)
    &&& point.len() == 0 || point == seq!['.']
    &&& point.len() == 0 ==> fraction.len() == 0
    &&& whole.len() + fraction.len() > 0
    &&& is_optional_exponent(exponent)
}

/// `s` is a number without sign.
pub open spec fn is_number(s: Seq<char>) -> bool {
    exists|whole: Seq<char>, point: Seq<char>, fraction: Seq<char>, exponent: Seq<char>|
        number_of(s, whole, point, fraction, exponent)
}

/// `s` is made of a sign or none and of a body that is a special word or a
/// number.
pub open spec fn literal_of(s: Seq<char>, sign: Seq<char>, body: Seq<char>) -> bool {
    &&& s == sign + body
    &&& is_optional_sign(sign)
    &&& is_special(body) || is_number(body)
}

/// The grammar of number literals: a sign or none, then `nan`, `inf` or
/// `infinity` in any case, or a number.
pub open spec fn in_grammar(s: Seq<char>) -> bool {
    exists|sign: Seq<char>, body: Seq<char>| literal_of(s, sign, body)
}

/// Where a run of digits ends: within the text, behind digits only, and
/// before a character that is none.
pub proof fn lemma_digits_end(s: Seq<char>, from: int)
    requires
        0 <= from <= s.len(),
    ensures
        from <= digits_end(s, from) <= s.len(),
        forall|i: int| from <= i < digits_end(s, from) ==> is_digit(s[i]),
        digits_end(s, from) == s.len() || !is_digit(s[digits_end(s, from)]),
    decreases s.len() - from,
{
    if from < s.len() && is_digit(s[from]) {
        lemma_digits_end(s, from + 1);
    }
}

/// From `from` on, `s` holds digits up to `to` and no further.
pub proof fn lemma_digits_end_at(s: Seq<char>, from: int, to: int)
    requires
        0 <= from <= to <= s.len(),
        forall|i: int| from <= i < to ==> is_digit(s[i]),
        to == s.len() || !is_digit(s[to]),
    ensures
        digits_end(s, from) == to,
    decreases to - from,
{
    if from < to {
        lemma_digits_end_at(s, from + 1, to);
    }
}

/// The first letter of a special word is an `n` or an `i`.
pub proof fn lemma_special_starts_with_a_letter(s: Seq<char>)
    requires
        is_special(s),
    ensures
        s.len() > 0,
        s[0] == 'n' || s[0] == 'N' || s[0] == 'i' || s[0] == 'I',
{
    reveal_strlit("nan");
    reveal_strlit("NAN");
    reveal_strlit("inf");
    reveal_strlit("INF");
    reveal_strlit("infinity");
    reveal_strlit("INFINITY");
    assert("NAN"@[0] == 'N');
    assert("INF"@[0] == 'I');
    assert("INFINITY"@[0] == 'I');
}

/// `part` stands in `s` at position `at`.
pub open spec fn stands_at(s: Seq<char>, at: int, part: Seq<char>) -> bool {
    &&& 0 <= at
    &&& at + part.len() <= s.len()
    &&& forall|i: int| 0 <= i < part.len() ==> s[at + i] == #[trigger] part[i]
}

/// Where the parts of a text stand that is made of four.
pub proof fn lemma_four_parts(a: Seq<char>, b: Seq<char>, c: Seq<char>, d: Seq<char>)
    ensures
        (a + b + c + d).len() == a.len() + b.len() + c.len() + d.len(),
        stands_at(a + b + c + d, 0, a),
        stands_at(a + b + c + d, a.len() as int, b),
        stands_at(a + b + c + d, (a.len() + b.len()) as int, c),
        stands_at(a + b + c + d, (a.len() + b.len() + c.len()) as int, d),
{
}

/// What stands in the rest of a text stands in the text, further on.
pub proof fn lemma_stands_in_rest(s: Seq<char>, from: int, at: int, part: Seq<char>)
    requires
        0 <= from <= s.len(),
        stands_at(s.skip(from), at, part),
    ensures
        stands_at(s, from + at, part),
{
    assert forall|i: int| 0 <= i < part.len() implies s[from + at + i] == #[trigger] part[i] by {
        assert(s.skip(from)[at + i] == part[i]);
    }
}

/// Digits that stand in a text, with none behind them, are a run of digits.
pub proof fn lemma_run_of_digits(s: Seq<char>, at: int, part: Seq<char>)
    requires
        stands_at(s, at, part),
        all_digits(part),
        at + part.len() == s.len() || !is_digit(s[at + part.len()]),
    ensures
        digits_end(s, at) == at + part.len(),
{
    assert forall|i: int| at <= i < at + part.len() implies is_digit(s[i]) by {
        assert(s[at + (i - at)] == part[i - at]);
    }
    lemma_digits_end_at(s, at, at + part.len());
}

/// An exponent that stands at the end of a text is read as one.
pub proof fn lemma_exponent_is_read(
    s: Seq<char>,
    at: int,
    exponent: Seq<char>,
    mark: char,
    sign: Seq<char>,
    digits: Seq<char>,
)
    requires
        stands_at(s, at, exponent),
        at + exponent.len() == s.len(),
        exponent_of(exponent, mark, sign, digits),
    ensures
        at < s.len(),
        is_exponent_mark(s[at]),
        (at + 1 < s.len() && is_sign(s[at + 1])) == (sign.len() == 1),
        at + 1 + sign.len() < s.len(),
        digits_end(s, at + 1 + sign.len()) == s.len(),
{
    let mark_text = seq![mark];
    assert(exponent == Seq::<char>::empty() + mark_text + sign + digits);
    lemma_four_parts(Seq::<char>::empty(), mark_text, sign, digits);
    assert(exponent[0] == mark_text[0]);
    assert(s[at + 0] == exponent[0]);
    let x0 = at + 1 + sign.len();
    assert(stands_at(s, x0, digits)) by {
        assert forall|i: int| 0 <= i < digits.len() implies s[x0 + i] == #[trigger] digits[i] by {
            assert(exponent[1 + sign.len() + i] == digits[i]);
            assert(s[at + (1 + sign.len() + i)] == exponent[1 + sign.len() + i]);
        }
    }
    lemma_run_of_digits(s, x0, digits);
    if sign.len() == 1 {
        assert(exponent[1] == sign[0]);
        assert(s[at + 1] == exponent[1]);
    } else {
        assert(s[x0 + 0] == digits[0]);
    }
}

/// A text made of the parts of a number reads as the number with these
/// parts.
pub proof fn lemma_parts_read_back(
    s: Seq<char>,
    from: int,
    whole: Seq<char>,
    point: Seq<char>,
    fraction: Seq<char>,
    exponent: Seq<char>,
)
    requires
        0 <= from <= s.len(),
        number_of(s.skip(from), whole, point, fraction, exponent),
    ensures
        read_magnitude(s, from) is Some,
        read_magnitude(s, from) matches Some(Magnitude::Finite { int_digits, frac_digits, .. })
            && int_digits == whole && frac_digits == fraction,
        is_digit(s[from]) || s[from] == '.',
{
    let body = s.skip(from);
    let a = from + whole.len();
    let f0 = a + point.len();
    let f1 = f0 + fraction.len();
    let n = s.len() as int;
    lemma_four_parts(whole, point, fraction, exponent);
    lemma_stands_in_rest(s, from, 0, whole);
    lemma_stands_in_rest(s, from, whole.len() as int, point);
    lemma_stands_in_rest(s, from, (whole.len() + point.len()) as int, fraction);
    lemma_stands_in_rest(
        s,
        from,
        (whole.len() + point.len() + fraction.len()) as int,
        exponent,
    );
    assert(f1 + exponent.len() == n);
    if exponent.len() > 0 {
        let (mark, sign, digits) = choose|mark: char, sign: Seq<char>, digits: Seq<char>|
            exponent_of(exponent, mark, sign, digits);
        lemma_exponent_is_read(s, f1, exponent, mark, sign, digits);
    }
    assert(f1 == n || !is_digit(s[f1]));
    assert(a == n || !is_digit(s[a])) by {
        if point.len() > 0 {
            assert(s[a + 0] == point[0]);
        } else {
            assert(a == f1);
        }
    }
    lemma_run_of_digits(s, from, whole);
    lemma_run_of_digits(s, f0, fraction);
    assert(a < n && s[a] == '.' <==> point.len() > 0) by {
        if point.len() > 0 {
            assert(s[a + 0] == point[0]);
        } else if a < n {
            assert(s[f1] != '.');
        }
    }
    assert(is_digit(s[from]) || s[from] == '.') by {
        if whole.len() > 0 {
            assert(s[from + 0] == whole[0]);
        } else {
            assert(s[a + 0] == point[0]);
        }
    }
    assert(!is_special(body)) by {
        assert(body[0] == s[from]);
        if is_special(body) {
            lemma_special_starts_with_a_letter(body);
        }
    }
    assert(s.subrange(from, a) =~= whole) by {
        assert forall|i: int| 0 <= i < whole.len() implies s[from + i] == whole[i] by {}
    }
    assert(s.subrange(f0, f1) =~= fraction) by {
        assert forall|i: int| 0 <= i < fraction.len() implies s[f0 + i] == fraction[i] by {}
    }
}

/// What the grammar admits is a number literal.
pub proof fn lemma_grammar_is_read(s: Seq<char>)
    requires
        in_grammar(s),
    ensures
        is_number_literal(s),
{
    let (sign, body) = choose|sign: Seq<char>, body: Seq<char>| literal_of(s, sign, body);
    let from = sign.len() as int;
    assert(s.skip(from) =~= body);
    if is_special(body) {
        lemma_special_starts_with_a_letter(body);
    } else {
        let (whole, point, fraction, exponent) = choose|
            whole: Seq<char>,
            point: Seq<char>,
            fraction: Seq<char>,
            exponent: Seq<char>,
        | number_of(body, whole, point, fraction, exponent);
        lemma_parts_read_back(s, from, whole, point, fraction, exponent);
    }
    assert(s[from] == body[0]);
    if from == 1 {
        assert(s[0] == sign[0]);
    }
}

/// A text falls into what stands before a position and what stands from
/// it on.
pub proof fn lemma_cut(s: Seq<char>, from: int, at: int, to: int)
    requires
        0 <= from <= at <= to <= s.len(),
    ensures
        s.subrange(from, to) == s.subrange(from, at) + s.subrange(at, to),
{
    assert(s.subrange(from, to) =~= s.subrange(from, at) + s.subrange(at, to));
}

/// What is read as an exponent is one.
pub proof fn lemma_exponent_is_grammar(s: Seq<char>, at: int, signed: bool)
    requires
        0 <= at < s.len(),
        is_exponent_mark(s[at]),
        signed == (at + 1 < s.len() && is_sign(s[at + 1])),
        at + 1 + (if signed { 1int } else { 0int }) < s.len(),
        digits_end(s, at + 1 + (if signed { 1int } else { 0int })) == s.len(),
    ensures
        is_optional_exponent(s.subrange(at, s.len() as int)),
{
    let n = s.len() as int;
    let x0 = at + 1 + (if signed { 1int } else { 0int });
    lemma_digits_end(s, x0);
    let exp_sign = s.subrange(at + 1, x0);
    let digits = s.subrange(x0, n);
    let exponent = s.subrange(at, n);
    assert(exponent =~= seq![s[at]] + exp_sign + digits);
    assert(exponent_of(exponent, s[at], exp_sign, digits));
}

/// A number literal is admitted by the grammar.
pub proof fn lemma_read_is_grammar(s: Seq<char>)
    requires
        is_number_literal(s),
    ensures
        in_grammar(s),
{
    let n = s.len() as int;
    let from: int = if s.len() > 0 && is_sign(s[0]) {
        1
    } else {
        0
    };
    let sign = s.take(from);
    let body = s.skip(from);
    assert(s =~= sign + body);
    if !is_special(body) {
        let a = digits_end(s, from);
        lemma_digits_end(s, from);
        let f0 = if a < n && s[a] == '.' {
            a + 1
        } else {
            a
        };
        lemma_digits_end(s, f0);
        let f1 = digits_end(s, f0);
        let whole = s.subrange(from, a);
        let point = s.subrange(a, f0);
        let fraction = s.subrange(f0, f1);
        let exponent = s.subrange(f1, n);
        assert(body == whole + point + fraction + exponent) by {
            assert(body =~= s.subrange(from, n));
            lemma_cut(s, from, f1, n);
            lemma_cut(s, from, f0, f1);
            lemma_cut(s, from, a, f0);
        }
        assert(point.len() == 0 || point == seq!['.']) by {
            if point.len() > 0 {
                assert(point =~= seq!['.']);
            }
        }
        assert(is_optional_exponent(exponent)) by {
            if f1 < n {
                lemma_exponent_is_grammar(s, f1, f1 + 1 < n && is_sign(s[f1 + 1]));
            }
        }
        assert(number_of(body, whole, point, fraction, exponent));
    }
    assert(literal_of(s, sign, body));
}

/// The number literals are the texts of this grammar, no more and no
/// fewer: a sign or none; then `nan`, `inf` or `infinity` in any case, or
/// digits with at most one point among them and at least one digit in all,
/// and behind them, or not, an `e` in either case, a sign or none, and
/// digits.
pub proof fn law_literals_are_the_grammar(s: Seq<char>)
    ensures
        is_number_literal(s) <==> in_grammar(s),
{
    if is_number_literal(s) {
        lemma_read_is_grammar(s);
    }
    if in_grammar(s) {
        lemma_grammar_is_read(s);
    }
}

/// A literal made of a whole part, a point, a fraction and an exponent
/// reads as a finite number with just these digits.
pub proof fn law_parts_are_read_back(
    whole: Seq<char>,
    point: Seq<char>,
    fraction: Seq<char>,
    exponent: Seq<char>,
)
    requires
        number_of(whole + point + fraction + exponent, whole, point, fraction, exponent),
    ensures
        read_literal(whole + point + fraction + exponent) matches Some(
            Reading { negative, magnitude: Magnitude::Finite { int_digits, frac_digits, .. } },
        ) && !negative && int_digits == whole && frac_digits == fraction,
{
    let s = whole + point + fraction + exponent;
    assert(s.skip(0) =~= s);
    lemma_parts_read_back(s, 0, whole, point, fraction, exponent);
}

} // verus!
