//! States the editor is drawn in.

use vstd::prelude::*;

verus! {

/// The state of an editor, as its style sees it.
#[derive(Debug, Clone, Copy, PartialEq, Eq, Structural)]
pub enum Status {
    Active,
    Hovered,
    Focused,
    Disabled,
}

/// The status an editor is drawn in: disabled without an action handler,
/// else focused while it has focus, else hovered under the mouse, else
/// active.
pub open spec fn status_spec(disabled: bool, focused: bool, hovered: bool) -> Status {
    if disabled {
        Status::Disabled
    } else if focused {
        Status::Focused
    } else if hovered {
        Status::Hovered
    } else {
        Status::Active
    }
}

/// The status an editor is drawn in.
pub fn status(disabled: bool, focused: bool, hovered: bool) -> (res: Status)
    ensures
        res == status_spec(disabled, focused, hovered),
{
    if disabled {
        Status::Disabled
    } else if focused {
        Status::Focused
    } else if hovered {
        Status::Hovered
    } else {
        Status::Active
    }
}

/// The mouse pointer over an editor.
#[derive(Debug, Clone, Copy, PartialEq, Eq, Structural)]
pub enum Interaction {
    /// The pointer is elsewhere: the default pointer.
    Idle,
    /// A text cursor, over an editor that takes input.
    Text,
    /// Over a disabled editor.
    NotAllowed,
}

/// The pointer over the editor: a text cursor over an editor that takes
/// input, not-allowed over a disabled one, the default elsewhere.
pub fn interaction(over: bool, disabled: bool) -> (res: Interaction)
    ensures
        res == (if !over {
            Interaction::Idle
        } else if disabled {
            Interaction::NotAllowed
        } else {
            Interaction::Text
        }),
{
    if !over {
        Interaction::Idle
    } else if disabled {
        Interaction::NotAllowed
    } else {
        Interaction::Text
    }
}

/// A disabled editor is always drawn disabled; an enabled one is drawn
/// focused whenever it has focus, hovered only without focus under the
/// mouse, and active otherwise.
pub proof fn lemma_status_order(disabled: bool, focused: bool, hovered: bool)
    ensures
        disabled ==> status_spec(disabled, focused, hovered) == Status::Disabled,
        !disabled && focused ==> status_spec(disabled, focused, hovered) == Status::Focused,
        !disabled && !focused && hovered ==> status_spec(disabled, focused, hovered)
            == Status::Hovered,
        !disabled && !focused && !hovered ==> status_spec(disabled, focused, hovered)
            == Status::Active,
{
}

} // verus!
