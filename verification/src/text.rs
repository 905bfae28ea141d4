use vstd::prelude::*;
use vstd::string::StringSliceAdditionalSpecFns;

verus! {

broadcast use vstd::string::group_string_axioms;

/// `String::push` appends exactly one character to the end of the string.
pub assume_specification[ std::string::String::push ](s: &mut std::string::String, c: char)
    ensures
        final(s)@ == old(s)@.push(c),
;

/// The sentinel that marks a back-reference; it is never part of a number.
pub open spec fn is_sentinel(c: char) -> bool {
    c == '*'
}

/// `s` with every sentinel character taken out, the rest in order.
pub open spec fn without_sentinels(s: Seq<char>) -> Seq<char> {
    s.filter(|c: char| !is_sentinel(c))
}

/// Filtering one character more either appends it or changes nothing.
pub proof fn lemma_without_sentinels_step(s: Seq<char>, i: int)
    requires
        0 <= i < s.len(),
    ensures
        without_sentinels(s.take(i + 1)) == if is_sentinel(s[i]) {
            without_sentinels(s.take(i))
        } else {
            without_sentinels(s.take(i)).push(s[i])
        },
{
    reveal(Seq::filter);
    assert(s.take(i + 1).drop_last() =~= s.take(i));
}

/// A sentinel in front of a text is stripped, and the rest as without it.
pub proof fn lemma_leading_sentinel_is_stripped(s: Seq<char>)
    ensures
        without_sentinels(seq!['*'] + s) == without_sentinels(s),
{
    let keep = |c: char| !is_sentinel(c);
    Seq::filter_distributes_over_add(seq!['*'], s, keep);
    assert(seq!['*'].filter(keep) =~= Seq::<char>::empty()) by {
        reveal_with_fuel(Seq::filter, 2);
        assert(seq!['*'].drop_last() =~= Seq::<char>::empty());
        assert(!keep(seq!['*'].last()));
    }
    assert(Seq::<char>::empty() + s.filter(keep) =~= s.filter(keep));
}

/// The characters of `s`, in order.
pub fn chars_of(s: &str) -> (v: Vec<char>)
    ensures
        v@ == s@,
{
    let mut v: Vec<char> = Vec::new();
    for c in it: s.chars()
        invariant
            it.seq() == s@,
            v@ == s@.take(it.index() as int),
    {
        v.push(c);
    }
    v
}

/// A string that holds the characters of `v`, in order.
pub fn string_of(v: &Vec<char>) -> (s: String)
    ensures
        s@ == v@,
{
    let mut s = String::new();
    let n = v.len();
    for i in 0..n
        invariant
            n == v.len(),
            s@ == v@.take(i as int),
    {
        s.push(v[i]);
        assert(v@.take(i + 1) =~= v@.take(i as int).push(v@[i as int]));
    }
    assert(v@.take(n as int) =~= v@);
    s
}

/// Removes every sentinel character from `s`.
pub fn strip_sentinels(s: &str) -> (out: String)
    ensures
        out@ == without_sentinels(s@),
{
    let mut out = String::new();
    proof {
        reveal(Seq::filter);
        assert(s@.take(0) =~= Seq::<char>::empty());
    }
    for c in it: s.chars()
        invariant
            it.seq() == s@,
            out@ == without_sentinels(s@.take(it.index() as int)),
    {
        proof {
            lemma_without_sentinels_step(s@, it.index() as int);
        }
        if c != '*' {
            out.push(c);
        }
    }
    assert(s@.take(s@.len() as int) =~= s@);
    out
}

/// Whether two strings hold the same characters.
pub fn same_text(a: &str, b: &str) -> (r: bool)
    ensures
        r == (a@ == b@),
{
    let x = a.as_bytes();
    let y = b.as_bytes();
    proof {
        // texts are the same where their encodings are
        vstd::utf8::encode_utf8_decode_utf8(a@);
        vstd::utf8::encode_utf8_decode_utf8(b@);
    }
    if x.len() != y.len() {
        return false;
    }
    let n = x.len();
    for i in 0..n
        invariant
            n == x.len(),
            n == y.len(),
            x@ == a.spec_bytes(),
            y@ == b.spec_bytes(),
            forall|j: int| 0 <= j < i ==> x@[j] == y@[j],
    {
        if x[i] != y[i] {
            return false;
        }
    }
    assert(x@ =~= y@);
    true
}

} // verus!
