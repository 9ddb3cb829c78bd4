//! Focus of the editor and the blinking of its cursor.

use vstd::prelude::*;

use super::bindings::Action;

verus! {

/// How long the cursor stays shown, then hidden, in milliseconds.
pub const CURSOR_BLINK_INTERVAL_MILLIS: u128 = 500;

/// Whether the cursor is shown `elapsed_millis` after the focus was last
/// updated: only while the window has focus, and in every other blink
/// interval, starting with the first.
pub fn is_cursor_visible(is_window_focused: bool, elapsed_millis: u128) -> (res: bool)
    ensures
        res == (is_window_focused && (elapsed_millis / CURSOR_BLINK_INTERVAL_MILLIS) % 2 == 0),
{
    is_window_focused && (elapsed_millis / CURSOR_BLINK_INTERVAL_MILLIS) % 2 == 0
}

/// How long until the cursor next blinks, `elapsed_millis` after the focus
/// was last updated.
pub fn millis_until_redraw(elapsed_millis: u128) -> (res: u128)
    ensures
        res == CURSOR_BLINK_INTERVAL_MILLIS - elapsed_millis % CURSOR_BLINK_INTERVAL_MILLIS,
        0 < res <= CURSOR_BLINK_INTERVAL_MILLIS,
{
    CURSOR_BLINK_INTERVAL_MILLIS - elapsed_millis % CURSOR_BLINK_INTERVAL_MILLIS
}

/// Waiting for the next blink reaches the start of a blink interval, where
/// the cursor has just switched between shown and hidden.
pub proof fn lemma_redraw_at_interval_start(elapsed_millis: u128)
    ensures
        (elapsed_millis + (CURSOR_BLINK_INTERVAL_MILLIS - elapsed_millis
            % CURSOR_BLINK_INTERVAL_MILLIS)) % (CURSOR_BLINK_INTERVAL_MILLIS as int) == 0,
        (elapsed_millis + (CURSOR_BLINK_INTERVAL_MILLIS - elapsed_millis
            % CURSOR_BLINK_INTERVAL_MILLIS)) / (CURSOR_BLINK_INTERVAL_MILLIS as int) == elapsed_millis
            / CURSOR_BLINK_INTERVAL_MILLIS + 1,
{
    let e = elapsed_millis as int;
    let q = e / 500;
    let r = e % 500;
    assert(e == 500 * q + r) by (nonlinear_arith)
        requires
            q == e / 500,
            r == e % 500,
    ;
    assert(e + (500 - r) == 500 * (q + 1));
    assert((500 * (q + 1)) % 500 == 0) by (nonlinear_arith);
    assert((500 * (q + 1)) / 500 == q + 1) by (nonlinear_arith);
}

/// How many clicks in quick succession a click completes.
#[derive(Debug, Clone, Copy, PartialEq, Eq, Structural)]
pub enum ClickKind {
    Single,
    Double,
    Triple,
}

/// The action of a click: one places the cursor, two select the word, three
/// the line.
pub open spec fn click_action(kind: ClickKind) -> Action {
    match kind {
        ClickKind::Single => Action::Click,
        ClickKind::Double => Action::SelectWord,
        ClickKind::Triple => Action::SelectLine,
    }
}

/// The editor's focus. Times are milliseconds on a clock that only moves
/// forward; the application chooses where it starts.
#[derive(Debug, Clone, Copy, PartialEq, Eq, Structural)]
pub struct Focus {
    /// When the focus was last updated: the cursor blinks from there.
    pub updated_at: u64,
    /// The time of the last redraw.
    pub now: u64,
    /// Whether the window has focus.
    pub is_window_focused: bool,
}

/// The milliseconds from `since` to `now`, or none when `now` is earlier.
pub open spec fn elapsed(now: u64, since: u64) -> nat {
    if now >= since {
        (now - since) as nat
    } else {
        0
    }
}

/// The blink interval, in milliseconds.
pub open spec fn interval() -> nat {
    CURSOR_BLINK_INTERVAL_MILLIS as nat
}

/// Whether the cursor is shown at the last redraw: only while the window
/// has focus, in every other blink interval counted from the last update.
pub open spec fn cursor_shown(f: Focus) -> bool {
    f.is_window_focused && (elapsed(f.now, f.updated_at) / interval()) % 2 == 0
}

/// The focus that begins at `now`, in a focused window.
pub open spec fn focus_at(now: u64) -> Focus {
    Focus { updated_at: now, now, is_window_focused: true }
}

impl Focus {
    /// The focus that begins at `now`, in a focused window.
    pub fn at(now: u64) -> (res: Focus)
        ensures
            res == focus_at(now),
    {
        Focus { updated_at: now, now, is_window_focused: true }
    }

    /// Whether the cursor is shown at the last redraw.
    pub fn cursor_visible(&self) -> (res: bool)
        ensures
            res == cursor_shown(*self),
    {
        let e: u64 = if self.now >= self.updated_at {
            self.now - self.updated_at
        } else {
            0
        };
        is_cursor_visible(self.is_window_focused, e as u128)
    }
}

/// The state the editor keeps between events.
#[derive(Debug, Clone, Copy, PartialEq, Eq, Structural)]
pub struct EditorState {
    /// The focus, while the editor has it.
    pub focus: Option<Focus>,
    /// The kind of the click that started a drag, while the button is down.
    pub drag_click: Option<ClickKind>,
}

/// A window event the editor follows, with the time it came at.
#[derive(Debug, Clone, Copy, PartialEq, Eq, Structural)]
pub enum WindowEvent {
    Unfocused,
    Focused(u64),
    RedrawRequested(u64),
}

/// When the editor asks to be drawn again.
#[derive(Debug, Clone, Copy, PartialEq, Eq, Structural)]
pub enum Redraw {
    /// At the next frame.
    NextFrame,
    /// At this time.
    At(u64),
}

/// The state after a window event, and the redraw it asks for: losing
/// the window's focus stops the blinking; regaining it restarts the blink
/// and asks for the next frame; a redraw while the window has focus
/// records the time and asks for the next blink.
pub open spec fn after_window_event(s: EditorState, event: WindowEvent) -> (EditorState, Option<Redraw>) {
    match s.focus {
        None => (s, None),
        Some(f) => match event {
            WindowEvent::Unfocused => (
                EditorState { focus: Some(Focus { is_window_focused: false, ..f }), ..s },
                None,
            ),
            WindowEvent::Focused(now) => (
                EditorState {
                    focus: Some(Focus { is_window_focused: true, updated_at: now, ..f }),
                    ..s
                },
                Some(Redraw::NextFrame),
            ),
            WindowEvent::RedrawRequested(now) => if f.is_window_focused {
                (
                    EditorState { focus: Some(Focus { now, ..f }), ..s },
                    Some(
                        Redraw::At(
                            (now + (interval() - elapsed(now, f.updated_at) % interval())) as u64,
                        ),
                    ),
                )
            } else {
                (s, None)
            },
        },
    }
}

impl EditorState {
    /// An editor without focus, not dragging.
    pub fn new() -> (res: EditorState)
        ensures
            res.focus is None,
            res.drag_click is None,
    {
        EditorState { focus: None, drag_click: None }
    }

    /// Whether the editor has focus.
    pub fn is_focused(&self) -> (res: bool)
        ensures
            res == self.focus is Some,
    {
        self.focus.is_some()
    }

    /// Gives the editor focus at `now`.
    pub fn focus(&mut self, now: u64)
        ensures
            final(self).focus == Some(focus_at(now)),
            final(self).drag_click == old(self).drag_click,
    {
        self.focus = Some(Focus::at(now));
    }

    /// Takes the focus from the editor.
    pub fn unfocus(&mut self)
        ensures
            final(self).focus is None,
            final(self).drag_click == old(self).drag_click,
    {
        self.focus = None;
    }

    /// Follows a window event, and gives the redraw it asks for.
    pub fn on_window_event(&mut self, event: WindowEvent) -> (res: Option<Redraw>)
        requires
            event matches WindowEvent::RedrawRequested(now) ==> now <= u64::MAX
                - CURSOR_BLINK_INTERVAL_MILLIS,
        ensures
            (*final(self), res) == after_window_event(*old(self), event),
    {
        match self.focus {
            None => None,
            Some(f) => match event {
                WindowEvent::Unfocused => {
                    self.focus = Some(Focus { is_window_focused: false, ..f });
                    None
                },
                WindowEvent::Focused(now) => {
                    self.focus = Some(Focus { is_window_focused: true, updated_at: now, ..f });
                    Some(Redraw::NextFrame)
                },
                WindowEvent::RedrawRequested(now) => {
                    if f.is_window_focused {
                        self.focus = Some(Focus { now, ..f });
                        let e: u64 = if now >= f.updated_at {
                            now - f.updated_at
                        } else {
                            0
                        };
                        let wait = millis_until_redraw(e as u128);
                        Some(Redraw::At(now + wait as u64))
                    } else {
                        None
                    }
                },
            },
        }
    }

    /// Follows a click of the given kind at `now`: the editor takes focus,
    /// a drag starts, and the click places the cursor, or selects the word
    /// or the line under it.
    pub fn on_click(&mut self, kind: ClickKind, now: u64) -> (res: Action)
        ensures
            final(self).focus == Some(focus_at(now)),
            final(self).drag_click == Some(kind),
            res == click_action(kind),
    {
        self.focus = Some(Focus::at(now));
        self.drag_click = Some(kind);
        match kind {
            ClickKind::Single => Action::Click,
            ClickKind::Double => Action::SelectWord,
            ClickKind::Triple => Action::SelectLine,
        }
    }

    /// Follows the release of the mouse button: the drag ends.
    pub fn on_release(&mut self)
        ensures
            final(self).focus == old(self).focus,
            final(self).drag_click is None,
    {
        self.drag_click = None;
    }
}

/// Clicks count up their selection: one click places the cursor, two select
/// the word, three select the line, and the three differ.
pub proof fn lemma_clicks_select_more()
    ensures
        click_action(ClickKind::Single) == Action::Click,
        click_action(ClickKind::Double) == Action::SelectWord,
        click_action(ClickKind::Triple) == Action::SelectLine,
{
}

/// How the editor follows the window: without focus it ignores every window
/// event; with focus, losing the window hides the cursor and asks for no
/// redraw, regaining it restarts the blink at that time and asks for the
/// next frame, and a redraw in a focused window records its time and asks
/// for a later redraw, at most one blink interval away. No window event
/// changes the drag or takes the editor's focus.
pub proof fn lemma_window_events(s: EditorState, event: WindowEvent)
    requires
        event matches WindowEvent::RedrawRequested(now) ==> now <= u64::MAX
            - CURSOR_BLINK_INTERVAL_MILLIS,
    ensures
        ({
            let (t, redraw) = after_window_event(s, event);
            &&& t.drag_click == s.drag_click
            &&& t.focus is Some == s.focus is Some
            &&& s.focus is None ==> t == s && redraw is None
            &&& s.focus is Some ==> match event {
                WindowEvent::Unfocused => !t.focus->0.is_window_focused && redraw is None,
                WindowEvent::Focused(now) => t.focus->0.is_window_focused
                    && t.focus->0.updated_at == now && redraw == Some(Redraw::NextFrame),
                WindowEvent::RedrawRequested(now) => if s.focus->0.is_window_focused {
                    t.focus->0.now == now && (redraw matches Some(Redraw::At(at)) && now < at
                        <= now + CURSOR_BLINK_INTERVAL_MILLIS)
                } else {
                    t == s && redraw is None
                },
            }
        }),
{
}

/// The cursor blinks in half-second steps: it shows as soon as the focus
/// is updated and through the first half second, hides through the next,
/// then shows again; in a window without focus it never shows.
pub proof fn lemma_cursor_blinks(f: Focus)
    ensures
        cursor_shown(focus_at(f.now)),
        f.is_window_focused && f.updated_at <= f.now && f.now - f.updated_at < 500 ==> cursor_shown(
            f,
        ),
        f.updated_at <= f.now && 500 <= f.now - f.updated_at < 1000 ==> !cursor_shown(f),
        f.is_window_focused && f.updated_at <= f.now && 1000 <= f.now - f.updated_at < 1500
            ==> cursor_shown(f),
        !f.is_window_focused ==> !cursor_shown(f),
{
}

} // verus!
