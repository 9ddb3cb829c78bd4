//! The menu bar: directions, axes, and the state of the bar's root items.

use vstd::prelude::*;

verus! {

/// How the path to an open menu is drawn.
#[derive(Debug, Clone, Copy, PartialEq, Eq, Structural)]
pub enum DrawPath {
    FakeHovering,
    Backdrop,
}

/// A direction along an axis.
#[derive(Debug, Clone, Copy, PartialEq, Eq, Structural)]
pub enum Direction {
    Positive,
    Negative,
}

impl Direction {
    /// The opposite direction.
    pub open spec fn flipped(self) -> Direction {
        match self {
            Direction::Positive => Direction::Negative,
            Direction::Negative => Direction::Positive,
        }
    }

    /// The opposite direction.
    pub fn flip(self) -> (res: Self)
        ensures
            res == self.flipped(),
    {
        match self {
            Direction::Positive => Direction::Negative,
            Direction::Negative => Direction::Positive,
        }
    }
}

/// Flipping a direction changes it, and flipping twice gives it back.
pub proof fn lemma_flip_twice(d: Direction)
    ensures
        d.flipped() != d,
        d.flipped().flipped() == d,
{
}

/// An axis of a layout.
#[derive(Debug, Clone, Copy, PartialEq, Eq, Structural)]
pub enum Axis {
    Horizontal,
    Vertical,
}

impl Axis {
    /// A pair of main-axis and cross-axis values as (horizontal, vertical).
    pub fn pack<T>(&self, main: T, cross: T) -> (res: (T, T))
        ensures
            *self == Axis::Horizontal ==> res == (main, cross),
            *self == Axis::Vertical ==> res == (cross, main),
    {
        match self {
            Axis::Horizontal => (main, cross),
            Axis::Vertical => (cross, main),
        }
    }
}

/// What an event does to a menu.
#[derive(Debug, Clone, Copy, PartialEq, Eq, Structural)]
pub enum RecEvent {
    Event,
    Close,
    /// The event leaves the menu as it is.
    NoEvent,
}

/// The states a menu is drawn in.
#[derive(Debug, Clone, Copy, PartialEq, Eq, Structural)]
pub enum Status {
    Active,
    Focused,
}

/// A mouse event, as the menu bar sees it.
#[derive(Debug, Clone, Copy, PartialEq, Eq, Structural)]
pub enum BarEvent {
    /// The left button went down.
    LeftPressed,
    /// The left button went up.
    LeftReleased,
    /// The cursor moved.
    CursorMoved,
    /// Anything else.
    Other,
}

/// The state of a menu bar.
#[derive(Debug, Clone, Copy, PartialEq, Eq)]
pub struct MenuBarState {
    /// The root whose menu is open or last was.
    pub active_root: Option<usize>,
    /// Whether a menu is open.
    pub open: bool,
    /// Whether the left button went down on the bar and is still down.
    pub is_pressed: bool,
}

impl Default for MenuBarState {
    /// A closed bar with no active root, not pressed.
    fn default() -> (res: Self)
        ensures
            res.active_root is None,
            !res.open,
            !res.is_pressed,
    {
        MenuBarState { active_root: None, open: false, is_pressed: false }
    }
}

impl MenuBarState {
    /// The state after `event` and whether the bar captures the event, given
    /// whether the cursor is over the bar and the first root it is over.
    pub open spec fn after(
        self,
        event: BarEvent,
        over_bar: bool,
        hovered_root: Option<usize>,
    ) -> (MenuBarState, bool) {
        match event {
            BarEvent::LeftPressed => if over_bar {
                (MenuBarState { is_pressed: true, ..self }, true)
            } else {
                (self, false)
            },
            BarEvent::LeftReleased => if over_bar && self.is_pressed {
                (
                    MenuBarState {
                        open: !self.open,
                        is_pressed: false,
                        active_root: if hovered_root is Some {
                            hovered_root
                        } else {
                            self.active_root
                        },
                    },
                    true,
                )
            } else {
                (self, false)
            },
            BarEvent::CursorMoved => if self.open {
                if over_bar {
                    (
                        MenuBarState {
                            active_root: if hovered_root is Some {
                                hovered_root
                            } else {
                                self.active_root
                            },
                            ..self
                        },
                        true,
                    )
                } else {
                    (MenuBarState { open: false, ..self }, true)
                }
            } else {
                (self, false)
            },
            BarEvent::Other => (self, false),
        }
    }

    /// Updates the bar for `event`: a press on the bar arms it; a release on
    /// the armed bar toggles the menu and activates the root under the
    /// cursor; moving over the bar while open activates the root under the
    /// cursor, and moving off it closes the menu. Returns whether the bar
    /// captured the event.
    pub fn on_event(&mut self, event: BarEvent, over_bar: bool, hovered_root: Option<usize>) -> (res:
        bool)
        ensures
            (*final(self), res) == old(self).after(event, over_bar, hovered_root),
    {
        match event {
            BarEvent::LeftPressed => {
                if over_bar {
                    self.is_pressed = true;
                    true
                } else {
                    false
                }
            },
            BarEvent::LeftReleased => {
                if over_bar && self.is_pressed {
                    self.open = !self.open;
                    self.is_pressed = false;
                    if hovered_root.is_some() {
                        self.active_root = hovered_root;
                    }
                    true
                } else {
                    false
                }
            },
            BarEvent::CursorMoved => {
                if self.open {
                    if over_bar {
                        if hovered_root.is_some() {
                            self.active_root = hovered_root;
                        }
                    } else {
                        self.open = false;
                    }
                    true
                } else {
                    false
                }
            },
            BarEvent::Other => false,
        }
    }
}

/// A press and then a release on the bar toggle the menu, whatever state
/// it was in.
pub proof fn lemma_click_toggles(s: MenuBarState, hovered: Option<usize>)
    ensures
        ({
            let (s1, c1) = s.after(BarEvent::LeftPressed, true, hovered);
            let (s2, c2) = s1.after(BarEvent::LeftReleased, true, hovered);
            c1 && c2 && s2.open == !s.open && !s2.is_pressed
        }),
{
}

/// How the bar answers the mouse: a press off the bar and any other event
/// are ignored and change nothing; a release that did not start with a
/// press on the bar changes nothing; while a menu is open, leaving the bar
/// closes it; while none is open, moving the cursor changes nothing.
pub proof fn lemma_bar_answers_the_mouse(s: MenuBarState, over_bar: bool, hovered: Option<usize>)
    ensures
        !over_bar ==> s.after(BarEvent::LeftPressed, over_bar, hovered) == (s, false),
        s.after(BarEvent::Other, over_bar, hovered) == (s, false),
        !s.is_pressed ==> s.after(BarEvent::LeftReleased, over_bar, hovered) == (s, false),
        s.open && !over_bar ==> !s.after(BarEvent::CursorMoved, over_bar, hovered).0.open,
        !s.open ==> s.after(BarEvent::CursorMoved, over_bar, hovered) == (s, false),
        over_bar ==> s.after(BarEvent::LeftPressed, over_bar, hovered).0.is_pressed,
{
}

} // verus!
