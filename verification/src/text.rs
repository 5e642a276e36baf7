//! Texts as sequences of characters: search and order.

use vstd::prelude::*;

verus! {

/// Whether `needle` stands in `hay` at position `at`.
pub open spec fn occurs_at(hay: Seq<char>, needle: Seq<char>, at: int) -> bool {
    &&& 0 <= at
    &&& at + needle.len() <= hay.len()
    &&& hay.subrange(at, at + needle.len()) == needle
}

/// Whether `needle` stands somewhere in `hay`.
pub open spec fn contains_text(hay: Seq<char>, needle: Seq<char>) -> bool {
    exists|at: int| occurs_at(hay, needle, at)
}

/// Whether `a` comes before `b` or equals it, in the order of a dictionary
/// whose letters are ordered by their code points.
pub open spec fn text_le(a: Seq<char>, b: Seq<char>) -> bool
    decreases a.len(),
{
    if a.len() == 0 {
        true
    } else if b.len() == 0 {
        false
    } else if a[0] != b[0] {
        (a[0] as int) < (b[0] as int)
    } else {
        text_le(a.drop_first(), b.drop_first())
    }
}

/// Of two texts one comes before the other or they are equal.
pub proof fn lemma_text_le_total(a: Seq<char>, b: Seq<char>)
    ensures
        text_le(a, b) || text_le(b, a),
    decreases a.len(),
{
    if a.len() > 0 && b.len() > 0 && a[0] == b[0] {
        lemma_text_le_total(a.drop_first(), b.drop_first());
    }
}

/// The order of texts is transitive.
pub proof fn lemma_text_le_transitive(a: Seq<char>, b: Seq<char>, c: Seq<char>)
    requires
        text_le(a, b),
        text_le(b, c),
    ensures
        text_le(a, c),
    decreases a.len(),
{
    if a.len() > 0 && b.len() > 0 && c.len() > 0 && a[0] == b[0] && b[0] == c[0] {
        lemma_text_le_transitive(a.drop_first(), b.drop_first(), c.drop_first());
    }
}

/// Two texts that come before one another are equal.
pub proof fn lemma_text_le_antisymmetric(a: Seq<char>, b: Seq<char>)
    requires
        text_le(a, b),
        text_le(b, a),
    ensures
        a == b,
    decreases a.len(),
{
    if a.len() > 0 && b.len() > 0 {
        lemma_text_le_antisymmetric(a.drop_first(), b.drop_first());
        assert(a =~= seq![a[0]] + a.drop_first());
        assert(b =~= seq![b[0]] + b.drop_first());
    } else {
        assert(a =~= b);
    }
}

/// The characters of a text, one by one.
pub fn chars_of(text: &str) -> (chars: Vec<char>)
    ensures
        chars@ == text@,
{
    let mut chars: Vec<char> = Vec::new();
    for c in it: text.chars()
        invariant
            it.seq() == text@,
            chars@ == text@.take(it.index() as int),
    {
        proof {
            assert(text@.take(it.index() + 1) =~= text@.take(it.index() as int).push(c));
        }
        chars.push(c);
    }
    proof {
        assert(text@.take(text@.len() as int) =~= text@);
    }
    chars
}

fn matches_at(hay: &Vec<char>, needle: &Vec<char>, at: usize) -> (m: bool)
    requires
        at + needle.len() <= hay.len(),
    ensures
        m == occurs_at(hay@, needle@, at as int),
{
    let mut k: usize = 0;
    while k < needle.len()
        invariant
            k <= needle.len(),
            at + needle.len() <= hay.len(),
            forall|j: int| 0 <= j < k ==> hay@[at + j] == needle@[j],
        decreases needle.len() - k,
    {
        if hay[at + k] != needle[k] {
            proof {
                let part = hay@.subrange(at as int, at + needle.len());
                assert(part[k as int] == hay@[at + k]);
            }
            return false;
        }
        k += 1;
    }
    proof {
        assert(hay@.subrange(at as int, at + needle.len()) =~= needle@);
    }
    true
}

/// Whether `needle` stands somewhere in `hay`.
pub fn contains_chars(hay: &Vec<char>, needle: &Vec<char>) -> (found: bool)
    ensures
        found == contains_text(hay@, needle@),
{
    if needle.len() > hay.len() {
        return false;
    }
    let count: usize = hay.len() - needle.len();
    let mut at: usize = 0;
    loop
        invariant
            at <= count,
            count == hay.len() - needle.len(),
            forall|k: int| 0 <= k < at ==> !occurs_at(hay@, needle@, k),
        decreases count - at,
    {
        if matches_at(hay, needle, at) {
            return true;
        }
        if at == count {
            return false;
        }
        at += 1;
    }
}

/// Whether `a` comes before `b` or equals it. See [`text_le`].
pub fn chars_le(a: &Vec<char>, b: &Vec<char>) -> (le: bool)
    ensures
        le == text_le(a@, b@),
{
    let mut i: usize = 0;
    proof {
        assert(a@.skip(0) =~= a@);
        assert(b@.skip(0) =~= b@);
    }
    while i < a.len() && i < b.len()
        invariant
            i <= a.len(),
            i <= b.len(),
            text_le(a@, b@) == text_le(a@.skip(i as int), b@.skip(i as int)),
        decreases a.len() - i,
    {
        if a[i] != b[i] {
            return a[i] < b[i];
        }
        proof {
            assert(a@.skip(i as int).drop_first() =~= a@.skip(i + 1));
            assert(b@.skip(i as int).drop_first() =~= b@.skip(i + 1));
        }
        i += 1;
    }
    i == a.len()
}

} // verus!
