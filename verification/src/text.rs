//! Text helpers: building strings, and replacing and lowercasing text.

use vstd::prelude::*;

verus! {

/// Appends one character to a string.
#[verifier::external_body]
pub(crate) fn push_char(s: &mut String, c: char)
    ensures
        final(s)@ == old(s)@.push(c),
{
    s.push(c);
}

/// The characters of a string slice, in order.
pub fn chars_of(s: &str) -> (res: Vec<char>)
    ensures
        res@ == s@,
{
    let mut res: Vec<char> = Vec::new();
    for c in it: s.chars()
        invariant
            res@ == it.seq().take(it.index() as int),
    {
        res.push(c);
    }
    proof { vstd::string::axiom_spec_iter(s); }
    res
}

/// `s` with every occurrence of `pat` replaced by `rep`, the occurrences
/// taken from left to right without overlap.
pub open spec fn replace_all(s: Seq<char>, pat: Seq<char>, rep: Seq<char>) -> Seq<char>
    decreases s.len(),
{
    if pat.len() == 0 || s.len() < pat.len() {
        s
    } else if s.take(pat.len() as int) == pat {
        rep + replace_all(s.skip(pat.len() as int), pat, rep)
    } else {
        seq![s[0]] + replace_all(s.drop_first(), pat, rep)
    }
}

/// Whether `pat` occurs in `cs` at position `i`.
fn occurs_at(cs: &Vec<char>, i: usize, pat: &Vec<char>) -> (res: bool)
    requires
        i + pat.len() <= cs.len(),
    ensures
        res == (cs@.subrange(i as int, i + pat.len()) == pat@),
{
    let m = pat.len();
    let mut j: usize = 0;
    while j < m
        invariant
            m == pat.len(),
            i + m <= cs.len(),
            j <= m,
            cs@.subrange(i as int, i + j) == pat@.take(j as int),
        decreases m - j,
    {
        if cs[i + j] != pat[j] {
            assert(cs@.subrange(i as int, i + m)[j as int] != pat@[j as int]);
            return false;
        }
        assert(cs@.subrange(i as int, i + j + 1) =~= pat@.take(j + 1));
        j += 1;
    }
    assert(pat@.take(m as int) =~= pat@);
    true
}

/// Replaces every occurrence of `pat` in `s` by `rep`, left to right.
pub fn replace(s: &str, pat: &str, rep: &str) -> (res: String)
    requires
        pat@.len() > 0,
    ensures
        res@ == replace_all(s@, pat@, rep@),
{
    let cs = chars_of(s);
    let ps = chars_of(pat);
    let n = cs.len();
    let m = ps.len();
    let mut res = String::new();
    let mut i: usize = 0;
    assert(s@.skip(0) =~= s@);
    while i < n
        invariant
            cs@ == s@,
            ps@ == pat@,
            n == cs.len(),
            m == ps.len(),
            m > 0,
            i <= n,
            res@ + replace_all(s@.skip(i as int), pat@, rep@) == replace_all(s@, pat@, rep@),
        decreases n - i,
    {
        let ghost t = s@.skip(i as int);
        if m <= n - i && occurs_at(&cs, i, &ps) {
            assert(t.take(m as int) =~= cs@.subrange(i as int, i + m));
            assert(t.skip(m as int) =~= s@.skip(i + m));
            let ghost before = res@;
            res.append(rep);
            assert(res@ + replace_all(s@.skip(i + m), pat@, rep@) =~= before + replace_all(
                t,
                pat@,
                rep@,
            ));
            i += m;
        } else {
            let c = cs[i];
            assert(t.drop_first() =~= s@.skip(i + 1));
            proof {
                if t.len() >= m {
                    assert(t.take(m as int) =~= cs@.subrange(i as int, i + m));
                } else {
                    assert(replace_all(t.drop_first(), pat@, rep@) == t.drop_first());
                }
            }
            assert(t =~= seq![c] + t.drop_first());
            let ghost before = res@;
            push_char(&mut res, c);
            assert(res@ + replace_all(s@.skip(i + 1), pat@, rep@) =~= before + replace_all(
                t,
                pat@,
                rep@,
            ));
            i += 1;
        }
    }
    assert(s@.skip(n as int) =~= Seq::<char>::empty());
    assert(res@ + Seq::<char>::empty() =~= res@);
    res
}

/// The Unicode lowercase of a character sequence, as `str::to_lowercase`
/// computes it.
pub uninterp spec fn lowercase(s: Seq<char>) -> Seq<char>;

/// A character mapped to lowercase when it is an ASCII capital letter.
pub open spec fn ascii_lower_char(c: char) -> char {
    if 'A' <= c <= 'Z' {
        ((c as u32) + 32) as char
    } else {
        c
    }
}

/// A sequence with every ASCII capital letter made lowercase.
pub open spec fn ascii_lowercase(s: Seq<char>) -> Seq<char> {
    Seq::new(s.len(), |i: int| ascii_lower_char(s[i]))
}

/// Calls `str::to_lowercase`. The result is named `lowercase(s@)`; where
/// every character of `s` is ASCII the Unicode lowercase mapping is the
/// ASCII one, which the second clause states. For other input nothing more
/// of the result is stated.
#[verifier::external_body]
pub(crate) fn to_lowercase(s: &str) -> (res: String)
    ensures
        res@ == lowercase(s@),
        vstd::utf8::is_ascii_chars(s@) ==> res@ == ascii_lowercase(s@),
{
    s.to_lowercase()
}

/// The concatenation of two string slices.
pub fn concat(a: &str, b: &str) -> (res: String)
    ensures
        res@ == a@ + b@,
{
    let mut res = a.to_owned();
    res.append(b);
    res
}

/// Text holding no character that starts the pattern is left as it is.
pub proof fn lemma_replace_all_absent(s: Seq<char>, pat: Seq<char>, rep: Seq<char>)
    requires
        pat.len() > 0,
        !s.contains(pat[0]),
    ensures
        replace_all(s, pat, rep) == s,
    decreases s.len(),
{
    if s.len() >= pat.len() {
        assert(s.take(pat.len() as int)[0] == s[0]);
        assert(s.take(pat.len() as int) != pat);
        assert forall|c: char| s.drop_first().contains(c) implies s.contains(c) by {
            let i = choose|i: int| 0 <= i < s.drop_first().len() && s.drop_first()[i] == c;
            assert(s[i + 1] == c);
        }
        lemma_replace_all_absent(s.drop_first(), pat, rep);
        assert(s =~= seq![s[0]] + s.drop_first());
    }
}

/// ASCII lowercasing turns each capital letter into its small letter and
/// leaves every other character as it is, keeping the length.
pub proof fn lemma_ascii_lowercase(s: Seq<char>, c: char)
    ensures
        ascii_lower_char('A') == 'a',
        ascii_lower_char('Z') == 'z',
        ascii_lower_char('J') == 'j',
        !('A' <= c <= 'Z') ==> ascii_lower_char(c) == c,
        ascii_lowercase(s).len() == s.len(),
        forall|i: int| 0 <= i < s.len() ==> #[trigger] ascii_lowercase(s)[i] == ascii_lower_char(
            s[i],
        ),
{
}

/// Replacing a pattern that starts the text puts the replacement first
/// and goes on after the pattern.
pub proof fn lemma_replace_at_start(pat: Seq<char>, rest: Seq<char>, rep: Seq<char>)
    requires
        pat.len() > 0,
    ensures
        replace_all(pat + rest, pat, rep) == rep + replace_all(rest, pat, rep),
{
    assert((pat + rest).take(pat.len() as int) =~= pat);
    assert((pat + rest).skip(pat.len() as int) =~= rest);
}

} // verus!
