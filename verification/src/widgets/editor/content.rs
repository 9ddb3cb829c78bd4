//! The text of an editor's content.

use vstd::prelude::*;

use crate::text::push_char;

verus! {

/// The lines joined with line breaks between them.
pub open spec fn joined(lines: Seq<Seq<char>>) -> Seq<char>
    decreases lines.len(),
{
    if lines.len() == 0 {
        Seq::empty()
    } else if lines.len() == 1 {
        lines[0]
    } else {
        joined(lines.drop_last()) + seq!['\n'] + lines.last()
    }
}

/// The text of a document with these lines: the lines joined by line
/// breaks, with a line break added at the end unless it ends in one.
pub open spec fn text_of(lines: Seq<Seq<char>>) -> Seq<char> {
    let j = joined(lines);
    if j.len() > 0 && j.last() == '\n' {
        j
    } else {
        j.push('\n')
    }
}

/// The text of a document given its lines, ending in a line break.
pub fn text(lines: &Vec<String>) -> (res: String)
    ensures
        res@ == text_of(lines@.map_values(|l: String| l@)),
{
    let ghost lv = lines@.map_values(|l: String| l@);
    let n = lines.len();
    let mut res = String::new();
    let mut i: usize = 0;
    assert(lv.take(0) =~= Seq::<Seq<char>>::empty());
    while i < n
        invariant
            n == lines@.len(),
            lv == lines@.map_values(|l: String| l@),
            i <= n,
            res@ == joined(lv.take(i as int)),
        decreases n - i,
    {
        if i > 0 {
            push_char(&mut res, '\n');
        }
        res.append(lines[i].as_str());
        let ghost t = lv.take(i + 1);
        assert(t.drop_last() =~= lv.take(i as int));
        assert(t.last() == lines@[i as int]@);
        assert(res@ =~= joined(t));
        i += 1;
    }
    assert(lv.take(n as int) =~= lv);
    if ends_with_newline(&res) {
        res
    } else {
        push_char(&mut res, '\n');
        res
    }
}

/// Whether the text ends with a line break.
fn ends_with_newline(s: &String) -> (res: bool)
    ensures
        res == (s@.len() > 0 && s@.last() == '\n'),
{
    let cs = crate::text::chars_of(s.as_str());
    cs.len() > 0 && cs[cs.len() - 1] == '\n'
}

/// The text of a document always ends in a line break.
pub proof fn lemma_text_ends_with_newline(lines: Seq<Seq<char>>)
    ensures
        text_of(lines).len() > 0,
        text_of(lines).last() == '\n',
{
}

/// A document's text is its lines joined by line breaks and ended by one:
/// no lines give a lone line break, one line gains a final break unless it
/// ends in one, and two lines are joined by a break between them.
pub proof fn lemma_text_joins_lines(a: Seq<char>, b: Seq<char>)
    ensures
        text_of(Seq::<Seq<char>>::empty()) == seq!['\n'],
        (a.len() == 0 || a.last() != '\n') ==> text_of(seq![a]) == a.push('\n'),
        b.len() > 0 && b.last() != '\n' ==> text_of(seq![a, b]) == a + seq!['\n'] + b + seq![
            '\n',
        ],
{
    assert(seq![a, b].drop_last() =~= seq![a]);
    assert(joined(seq![a]) == a);
    assert(joined(seq![a, b]) == a + seq!['\n'] + b);
    if b.len() > 0 {
        assert((a + seq!['\n'] + b).last() == b.last());
        assert((a + seq!['\n'] + b).push('\n') =~= a + seq!['\n'] + b + seq!['\n']);
    }
}

} // verus!
