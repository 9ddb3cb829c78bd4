//! The code editor of a cell.

use vstd::prelude::*;

pub mod bindings;
pub mod content;
pub mod highlighter;
pub mod state;
pub mod style;

verus! {

/// The language an editor highlights.
#[derive(Debug, Clone, Copy, PartialEq, Eq, Structural)]
pub enum Syntax {
    PlainText,
    Markdown,
    Wgsl,
}

impl Syntax {
    /// The key that selects the syntax definition.
    pub open spec fn key_text(self) -> Seq<char> {
        match self {
            Syntax::PlainText => "plain_text"@,
            Syntax::Markdown => "markdown"@,
            Syntax::Wgsl => "wgsl"@,
        }
    }

    /// The key that selects the syntax definition.
    pub fn key(&self) -> (res: &'static str)
        ensures
            res@ == self.key_text(),
    {
        match self {
            Syntax::PlainText => "plain_text",
            Syntax::Markdown => "markdown",
            Syntax::Wgsl => "wgsl",
        }
    }
}

impl Default for Syntax {
    fn default() -> (res: Self)
        ensures
            res == Syntax::PlainText,
    {
        Syntax::PlainText
    }
}

/// Each syntax has its own key: `plain_text`, `markdown` and `wgsl`.
pub proof fn lemma_syntax_keys()
    ensures
        Syntax::PlainText.key_text() == "plain_text"@,
        Syntax::Markdown.key_text() == "markdown"@,
        Syntax::Wgsl.key_text() == "wgsl"@,
        Syntax::PlainText.key_text() != Syntax::Markdown.key_text(),
        Syntax::Markdown.key_text() != Syntax::Wgsl.key_text(),
        Syntax::PlainText.key_text() != Syntax::Wgsl.key_text(),
{
    reveal_strlit("plain_text");
    reveal_strlit("markdown");
    reveal_strlit("wgsl");
    assert("plain_text"@.len() != "markdown"@.len());
    assert("markdown"@.len() != "wgsl"@.len());
    assert("plain_text"@.len() != "wgsl"@.len());
}

} // verus!
