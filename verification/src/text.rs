//! Character-level text helpers: the characters of a string, and replacing a pattern.
use vstd::prelude::*;
use vstd::string::StringExecFns;

verus! {

broadcast use vstd::string::axiom_spec_iter;

/// `String::push`: appends one character.
#[verifier::external_body]
pub(crate) fn push_char(s: &mut String, c: char)
    ensures
        final(s)@ == old(s)@.push(c),
{
    s.push(c)
}

/// The characters of `s`, in order.
pub fn chars_of(s: &str) -> (r: Vec<char>)
    ensures
        r@ == s@,
{
    let mut v: Vec<char> = Vec::new();
    for c in it: s.chars()
        invariant
            v@ == it.seq().take(it.index() as int),
    {
        v.push(c);
    }
    v
}


/// `s` with every match of `from` replaced by `to`: the matches are taken from left to
/// right and do not overlap.
pub open spec fn replace_all(s: Seq<char>, from: Seq<char>, to: Seq<char>) -> Seq<char>
    decreases s.len(),
{
    if from.len() == 0 || s.len() < from.len() {
        s
    } else if s.take(from.len() as int) == from {
        to + replace_all(s.skip(from.len() as int), from, to)
    } else {
        seq![s[0]] + replace_all(s.skip(1), from, to)
    }
}

/// Whether `pat` occurs in `s` at position `pos`.
fn matches_at(s: &Vec<char>, pos: usize, pat: &Vec<char>) -> (r: bool)
    requires
        pos + pat@.len() <= s@.len(),
    ensures
        r == (s@.subrange(pos as int, pos + pat@.len()) == pat@),
{
    let mut j: usize = 0;
    let n = s.len();
    while j < pat.len()
        invariant
            n == s@.len(),
            j <= pat@.len(),
            pos + pat@.len() <= s@.len(),
            forall|k: int| 0 <= k < j ==> s@[pos + k] == pat@[k],
        decreases pat@.len() - j,
    {
        assert(pos + j < s@.len());
        if s[pos + j] != pat[j] {
            assert(s@.subrange(pos as int, pos + pat@.len())[j as int] != pat@[j as int]);
            return false;
        }
        j = j + 1;
    }
    assert(s@.subrange(pos as int, pos + pat@.len()) =~= pat@);
    true
}

/// Replaces every match of `from` in `s` by `to`, as `str::replace` does for a pattern
/// that is not empty.
pub fn replace_text(s: &str, from: &str, to: &str) -> (r: String)
    requires
        from@.len() > 0,
    ensures
        r@ == replace_all(s@, from@, to@),
{
    let cs = chars_of(s);
    let pat = chars_of(from);
    let mut out = String::new();
    let mut i: usize = 0;
    let m = pat.len();
    assert(cs@.skip(0) =~= cs@);
    assert(out@ + cs@.skip(0) =~= cs@);
    while i < cs.len()
        invariant
            cs@ == s@,
            pat@ == from@,
            m == pat@.len(),
            m > 0,
            i <= cs@.len(),
            out@ + replace_all(cs@.skip(i as int), pat@, to@) == replace_all(s@, from@, to@),
        decreases cs@.len() - i,
    {
        let ghost rest = cs@.skip(i as int);
        if m <= cs.len() - i && matches_at(&cs, i, &pat) {
            assert(rest.take(m as int) =~= cs@.subrange(i as int, i + m));
            assert(rest.skip(m as int) =~= cs@.skip(i + m));
            out.append(to);
            i = i + m;
        } else {
            if m <= cs.len() - i {
                assert(rest.take(m as int) =~= cs@.subrange(i as int, i + m));
            }
            assert(rest.skip(1) =~= cs@.skip(i + 1));
            proof {
                if rest.len() < m {
                    lemma_replace_all_short(rest, pat@, to@);
                }
            }
            push_char(&mut out, cs[i]);
            i = i + 1;
        }
    }
    assert(cs@.skip(i as int) =~= Seq::<char>::empty());
    out
}

/// Text shorter than the pattern comes out as it is.
proof fn lemma_replace_all_short(s: Seq<char>, from: Seq<char>, to: Seq<char>)
    requires
        s.len() < from.len(),
    ensures
        replace_all(s, from, to) == s,
        s.len() > 0 ==> replace_all(s, from, to) == seq![s[0]] + replace_all(s.skip(1), from, to),
    decreases s.len(),
{
    if s.len() > 0 {
        lemma_replace_all_short(s.skip(1), from, to);
        assert(s =~= seq![s[0]] + s.skip(1));
    }
}

} // verus!
