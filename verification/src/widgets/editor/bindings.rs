//! Key bindings of the editor: which edit a key press asks for.

use vstd::prelude::*;

use super::state::{ClickKind, EditorState, Focus};
use super::style::Status;

verus! {

/// A named (non-character) key.
#[derive(Debug, Clone, Copy, PartialEq, Eq, Structural)]
pub enum Named {
    Enter,
    Backspace,
    Delete,
    Escape,
    ArrowLeft,
    ArrowRight,
    ArrowUp,
    ArrowDown,
    Home,
    End,
    PageUp,
    PageDown,
    /// Any other named key.
    Other,
}

/// A key of the keyboard.
#[derive(Debug, Clone, PartialEq, Eq)]
pub enum Key {
    Named(Named),
    Character(String),
    Unidentified,
}

/// The modifier state, read as the platform-dependent roles the bindings
/// ask about.
#[derive(Debug, Clone, Copy, PartialEq, Eq, Structural)]
pub struct Modifiers {
    /// The command modifier (Cmd on macOS, Ctrl elsewhere) is held.
    pub command: bool,
    /// Alt is held.
    pub alt: bool,
    /// The macOS command key is held (never on other platforms).
    pub macos_command: bool,
    /// The word-jump modifier (Alt on macOS, Ctrl elsewhere) is held.
    pub jump: bool,
    /// Shift is held.
    pub shift: bool,
}

/// A movement of the cursor.
#[derive(Debug, Clone, Copy, PartialEq, Eq, Structural)]
pub enum Motion {
    Left,
    Right,
    Up,
    Down,
    WordLeft,
    WordRight,
    Home,
    End,
    PageUp,
    PageDown,
    DocumentStart,
    DocumentEnd,
}

impl Motion {
    /// The wider movement of the same direction.
    pub open spec fn widened(self) -> Motion {
        match self {
            Motion::Left => Motion::WordLeft,
            Motion::Right => Motion::WordRight,
            Motion::Home => Motion::DocumentStart,
            Motion::End => Motion::DocumentEnd,
            _ => self,
        }
    }

    /// The wider movement of the same direction: a word instead of a
    /// character, the document instead of the line.
    pub fn widen(self) -> (res: Motion)
        ensures
            res == self.widened(),
    {
        match self {
            Motion::Left => Motion::WordLeft,
            Motion::Right => Motion::WordRight,
            Motion::Home => Motion::DocumentStart,
            Motion::End => Motion::DocumentEnd,
            _ => self,
        }
    }
}

/// An edit or movement that a key asks for.
#[derive(Debug, PartialEq)]
pub enum Binding<Message> {
    Unfocus,
    Copy,
    Cut,
    Paste,
    Move(Motion),
    Select(Motion),
    SelectWord,
    SelectLine,
    SelectAll,
    Insert(char),
    Enter,
    Backspace,
    Delete,
    Sequence(Vec<Binding<Message>>),
    Custom(Message),
}


/// An action the editor publishes for its content to perform. Positions
/// and scroll amounts travel beside it, with the caller.
#[derive(Debug, Clone, Copy, PartialEq, Eq, Structural)]
pub enum Action {
    Click,
    SelectWord,
    SelectLine,
    Drag,
    Scroll,
    Move(Motion),
    Select(Motion),
    SelectAll,
    Insert(char),
    Enter,
    Backspace,
    Delete,
}

/// What applying a binding asks of the world outside the editor's state.
#[derive(Debug, PartialEq)]
pub enum Effect<Message> {
    /// Publish an action.
    Publish(Action),
    /// Write this text to the clipboard.
    Copy(String),
    /// Read the clipboard and, when it holds text, publish pasting it.
    Paste,
    /// Publish a message of the application's own.
    Custom(Message),
}

/// The effects of a binding, with the editor's selection at the time:
/// copy and cut act only on a selection, a sequence has the effects of
/// its bindings in order, and unfocusing has none.
pub open spec fn binding_effects<M>(b: Binding<M>, selection: Option<String>) -> Seq<Effect<M>>
    decreases b,
{
    match b {
        Binding::Unfocus => Seq::empty(),
        Binding::Copy => match selection {
            Some(s) => seq![Effect::Copy(s)],
            None => Seq::empty(),
        },
        Binding::Cut => match selection {
            Some(s) => seq![Effect::Copy(s), Effect::Publish(Action::Delete)],
            None => Seq::empty(),
        },
        Binding::Paste => seq![Effect::Paste],
        Binding::Move(m) => seq![Effect::Publish(Action::Move(m))],
        Binding::Select(m) => seq![Effect::Publish(Action::Select(m))],
        Binding::SelectWord => seq![Effect::Publish(Action::SelectWord)],
        Binding::SelectLine => seq![Effect::Publish(Action::SelectLine)],
        Binding::SelectAll => seq![Effect::Publish(Action::SelectAll)],
        Binding::Insert(c) => seq![Effect::Publish(Action::Insert(c))],
        Binding::Enter => seq![Effect::Publish(Action::Enter)],
        Binding::Backspace => seq![Effect::Publish(Action::Backspace)],
        Binding::Delete => seq![Effect::Publish(Action::Delete)],
        Binding::Sequence(v) => sequence_effects(v@, selection),
        Binding::Custom(m) => seq![Effect::Custom(m)],
    }
}

/// The effects of bindings applied one after another.
pub open spec fn sequence_effects<M>(s: Seq<Binding<M>>, selection: Option<String>) -> Seq<
    Effect<M>,
>
    decreases s,
{
    if s.len() == 0 {
        Seq::empty()
    } else {
        sequence_effects(s.drop_last(), selection) + binding_effects(s.last(), selection)
    }
}

/// Whether a binding takes the focus from the editor: it unfocuses, or is
/// a sequence with a binding that does.
pub open spec fn unfocuses<M>(b: Binding<M>) -> bool
    decreases b,
{
    match b {
        Binding::Unfocus => true,
        Binding::Sequence(v) => sequence_unfocuses(v@),
        _ => false,
    }
}

/// Whether one of the bindings takes the focus from the editor.
pub open spec fn sequence_unfocuses<M>(s: Seq<Binding<M>>) -> bool
    decreases s,
{
    if s.len() == 0 {
        false
    } else {
        sequence_unfocuses(s.drop_last()) || unfocuses(s.last())
    }
}

/// A sequence of bindings acts as its first part and then the rest: the
/// effects of `a + b` are those of `a` followed by those of `b`, and it
/// takes the focus when either part does.
pub proof fn lemma_sequence_split<M>(
    a: Seq<Binding<M>>,
    b: Seq<Binding<M>>,
    selection: Option<String>,
)
    ensures
        sequence_effects(a + b, selection) == sequence_effects(a, selection) + sequence_effects(
            b,
            selection,
        ),
        sequence_unfocuses(a + b) == (sequence_unfocuses(a) || sequence_unfocuses(b)),
    decreases b.len(),
{
    if b.len() == 0 {
        assert(a + b =~= a);
        assert(sequence_effects(a, selection) + Seq::empty() =~= sequence_effects(a, selection));
    } else {
        assert((a + b).drop_last() =~= a + b.drop_last());
        assert((a + b).last() == b.last());
        lemma_sequence_split(a, b.drop_last(), selection);
        assert(sequence_effects(a + b, selection) =~= sequence_effects(a, selection)
            + sequence_effects(b, selection));
    }
}

/// The editor's state after the bindings of `b` are applied: without
/// focus and not dragging when one of them unfocuses, else unchanged.
pub open spec fn state_after<M>(s: EditorState, b: Binding<M>) -> EditorState {
    if unfocuses(b) {
        EditorState { focus: None, drag_click: None }
    } else {
        s
    }
}

/// The editor's state after a binding is applied at `now`: as
/// `state_after` says, and a focus that remains restarts its blink.
pub open spec fn state_after_binding<M>(s: EditorState, b: Binding<M>, now: u64) -> EditorState {
    let t = state_after(s, b);
    match t.focus {
        Some(f) => EditorState { focus: Some(Focus { updated_at: now, ..f }), ..t },
        None => t,
    }
}

/// A key press as the editor receives it.
#[derive(Debug, Clone, PartialEq, Eq)]
pub struct KeyPress {
    pub key: Key,
    pub modifiers: Modifiers,
    pub text: Option<String>,
    pub status: Status,
}

/// A control character (general category Cc): U+0000 to U+001F and
/// U+007F to U+009F.
pub open spec fn is_control(c: char) -> bool {
    c <= '\u{1f}' || ('\u{7f}' <= c && c <= '\u{9f}')
}

/// Whether `c` is a control character (`char::is_control`).
pub fn char_is_control(c: char) -> (res: bool)
    ensures
        res == is_control(c),
{
    c <= '\u{1f}' || ('\u{7f}' <= c && c <= '\u{9f}')
}

/// The first character of `s` that is not a control character.
pub open spec fn first_printable(s: Seq<char>) -> Option<char>
    decreases s.len(),
{
    if s.len() == 0 {
        None
    } else if !is_control(s[0]) {
        Some(s[0])
    } else {
        first_printable(s.drop_first())
    }
}

/// The first character of `s` that is not a control character, if any.
pub fn find_printable(s: &str) -> (res: Option<char>)
    ensures
        res == first_printable(s@),
{
    let cs = crate::text::chars_of(s);
    let n = cs.len();
    let mut i: usize = 0;
    assert(cs@.skip(0) =~= cs@);
    while i < n
        invariant
            n == cs@.len(),
            cs@ == s@,
            i <= n,
            first_printable(s@) == first_printable(s@.skip(i as int)),
        decreases n - i,
    {
        let ghost t = s@.skip(i as int);
        assert(t.drop_first() =~= s@.skip(i + 1));
        if !char_is_control(cs[i]) {
            return Some(cs[i]);
        }
        i += 1;
    }
    None
}

/// The movement a named key stands for, if any.
pub open spec fn motion_of(key: Named) -> Option<Motion> {
    match key {
        Named::ArrowLeft => Some(Motion::Left),
        Named::ArrowRight => Some(Motion::Right),
        Named::ArrowUp => Some(Motion::Up),
        Named::ArrowDown => Some(Motion::Down),
        Named::Home => Some(Motion::Home),
        Named::End => Some(Motion::End),
        Named::PageUp => Some(Motion::PageUp),
        Named::PageDown => Some(Motion::PageDown),
        _ => None,
    }
}

/// The movement a named key stands for, if any.
pub fn motion(key: Named) -> (res: Option<Motion>)
    ensures
        res == motion_of(key),
{
    match key {
        Named::ArrowLeft => Some(Motion::Left),
        Named::ArrowRight => Some(Motion::Right),
        Named::ArrowUp => Some(Motion::Up),
        Named::ArrowDown => Some(Motion::Down),
        Named::Home => Some(Motion::Home),
        Named::End => Some(Motion::End),
        Named::PageUp => Some(Motion::PageUp),
        Named::PageDown => Some(Motion::PageDown),
        _ => None,
    }
}

/// The movement for a named key under the modifiers: the macOS command key
/// turns left and right into line start and end, the jump modifier widens.
pub open spec fn modified_motion(m: Motion, modifiers: Modifiers) -> Motion {
    let m1 = if modifiers.macos_command {
        match m {
            Motion::Left => Motion::Home,
            Motion::Right => Motion::End,
            _ => m,
        }
    } else {
        m
    };
    if modifiers.jump {
        m1.widened()
    } else {
        m1
    }
}

/// Whether the key is the character `c` written as a one-character string.
pub open spec fn is_char_key(key: Key, c: char) -> bool {
    key matches Key::Character(s) && s@ == seq![c]
}

/// The binding of a key press, as the editor's default bindings give it.
pub open spec fn binding_of<M>(press: KeyPress) -> Option<Binding<M>> {
    let KeyPress { key, modifiers, text, status } = press;
    if status != Status::Focused {
        None
    } else if key == Key::Named(Named::Enter) {
        Some(Binding::Enter)
    } else if key == Key::Named(Named::Backspace) {
        Some(Binding::Backspace)
    } else if key == Key::Named(Named::Delete) && text is None {
        Some(Binding::Delete)
    } else if key == Key::Named(Named::Escape) {
        Some(Binding::Unfocus)
    } else if is_char_key(key, 'c') && modifiers.command {
        Some(Binding::Copy)
    } else if is_char_key(key, 'x') && modifiers.command {
        Some(Binding::Cut)
    } else if is_char_key(key, 'v') && modifiers.command && !modifiers.alt {
        Some(Binding::Paste)
    } else if is_char_key(key, 'a') && modifiers.command {
        Some(Binding::SelectAll)
    } else if let Some(t) = text {
        match first_printable(t@) {
            Some(c) => Some(Binding::Insert(c)),
            None => None,
        }
    } else if let Key::Named(named) = key {
        match motion_of(named) {
            Some(m) => {
                let mm = modified_motion(m, modifiers);
                if modifiers.shift {
                    Some(Binding::Select(mm))
                } else {
                    Some(Binding::Move(mm))
                }
            },
            None => None,
        }
    } else {
        None
    }
}

/// Whether `key` is the character key `c`.
fn char_key_is(key: &Key, c: &str) -> (res: bool)
    requires
        c@.len() == 1,
    ensures
        res == is_char_key(*key, c@[0]),
{
    match key {
        Key::Character(s) => {
            let cs = crate::text::chars_of(s.as_str());
            let want = crate::text::chars_of(c);
            if cs.len() == 1 && cs[0] == want[0] {
                assert(s@ =~= seq![c@[0]]);
                true
            } else {
                proof {
                    if s@ == seq![c@[0]] {
                        assert(cs@[0] == want@[0]);
                    }
                }
                false
            }
        },
        _ => false,
    }
}

impl<Message> Binding<Message> {
    /// The binding of a key press: none unless the editor is focused; Enter,
    /// Backspace, Delete (without text) and Escape; copy, cut, paste (not
    /// with Alt) and select-all on the command modifier with c, x, v, a;
    /// otherwise the first printable character of the text is inserted; a
    /// movement key moves (or, with Shift, selects), changed by the
    /// modifiers as `modified_motion` says.
    pub fn from_key_press(event: KeyPress) -> (res: Option<Self>)
        ensures
            res == binding_of::<Message>(event),
    {
        let KeyPress { key, modifiers, text, status } = event;
        if status != Status::Focused {
            return None;
        }
        proof {
            reveal_strlit("c");
            reveal_strlit("x");
            reveal_strlit("v");
            reveal_strlit("a");
        }
        match key {
            Key::Named(Named::Enter) => {
                return Some(Binding::Enter);
            },
            Key::Named(Named::Backspace) => {
                return Some(Binding::Backspace);
            },
            Key::Named(Named::Delete) => {
                if text.is_none() {
                    return Some(Binding::Delete);
                }
            },
            Key::Named(Named::Escape) => {
                return Some(Binding::Unfocus);
            },
            _ => {},
        }
        if char_key_is(&key, "c") && modifiers.command {
            return Some(Binding::Copy);
        }
        if char_key_is(&key, "x") && modifiers.command {
            return Some(Binding::Cut);
        }
        if char_key_is(&key, "v") && modifiers.command && !modifiers.alt {
            return Some(Binding::Paste);
        }
        if char_key_is(&key, "a") && modifiers.command {
            return Some(Binding::SelectAll);
        }
        if let Some(t) = text {
            match find_printable(t.as_str()) {
                Some(c) => Some(Binding::Insert(c)),
                None => None,
            }
        } else if let Key::Named(named) = key {
            match motion(named) {
                Some(m) => {
                    let m1 = if modifiers.macos_command {
                        match m {
                            Motion::Left => Motion::Home,
                            Motion::Right => Motion::End,
                            _ => m,
                        }
                    } else {
                        m
                    };
                    let m2 = if modifiers.jump {
                        m1.widen()
                    } else {
                        m1
                    };
                    if modifiers.shift {
                        Some(Binding::Select(m2))
                    } else {
                        Some(Binding::Move(m2))
                    }
                },
                None => None,
            }
        } else {
            None
        }
    }
}


impl<Message> Binding<Message> {
    /// Applies the binding to the editor's state, adding its effects to
    /// `out` in order.
    fn collect(
        self,
        selection: &Option<String>,
        state: &mut EditorState,
        out: &mut Vec<Effect<Message>>,
    )
        ensures
            final(out)@ == old(out)@ + binding_effects(self, *selection),
            *final(state) == state_after(*old(state), self),
        decreases self,
    {
        let ghost whole = self;
        let ghost start = out@;
        match self {
            Binding::Unfocus => {
                state.focus = None;
                state.drag_click = None;
            },
            Binding::Copy => {
                if let Some(text) = selection {
                    out.push(Effect::Copy(text.clone()));
                }
            },
            Binding::Cut => {
                if let Some(text) = selection {
                    out.push(Effect::Copy(text.clone()));
                    out.push(Effect::Publish(Action::Delete));
                }
            },
            Binding::Paste => out.push(Effect::Paste),
            Binding::Move(m) => out.push(Effect::Publish(Action::Move(m))),
            Binding::Select(m) => out.push(Effect::Publish(Action::Select(m))),
            Binding::SelectWord => out.push(Effect::Publish(Action::SelectWord)),
            Binding::SelectLine => out.push(Effect::Publish(Action::SelectLine)),
            Binding::SelectAll => out.push(Effect::Publish(Action::SelectAll)),
            Binding::Insert(c) => out.push(Effect::Publish(Action::Insert(c))),
            Binding::Enter => out.push(Effect::Publish(Action::Enter)),
            Binding::Backspace => out.push(Effect::Publish(Action::Backspace)),
            Binding::Delete => out.push(Effect::Publish(Action::Delete)),
            Binding::Custom(m) => out.push(Effect::Custom(m)),
            Binding::Sequence(v) => {
                let ghost items = v@;
                let ghost before = *state;
                proof {
                    assert(items.take(0) =~= Seq::<Binding<Message>>::empty());
                }
                for b in it: v
                    invariant
                        it.seq() == items,
                        whole == Binding::Sequence(v),
                        whole == self,
                        out@ == start + sequence_effects(items.take(it.index() as int), *selection),
                        *state == (if sequence_unfocuses(items.take(it.index() as int)) {
                            EditorState { focus: None, drag_click: None }
                        } else {
                            before
                        }),
                {
                    let ghost i = it.index() as int;
                    proof {
                        assert(items.take(i + 1).drop_last() =~= items.take(i));
                        assert(items.take(i + 1).last() == items[i]);
                        assert(decreases_to!(whole => whole->Sequence_0));
                    }
                    b.collect(selection, state, out);
                    proof {
                        assert(out@ =~= start + sequence_effects(items.take(i + 1), *selection));
                    }
                }
                proof {
                    assert(items.take(items.len() as int) =~= items);
                }
            },
        }
    }

    /// Applies the binding at `now`: changes the editor's state as
    /// `state_after_binding` says, and gives its effects in order.
    pub fn apply(self, state: &mut EditorState, selection: Option<String>, now: u64) -> (res: Vec<
        Effect<Message>,
    >)
        ensures
            res@ == binding_effects(self, selection),
            *final(state) == state_after_binding(*old(state), self, now),
    {
        let mut out: Vec<Effect<Message>> = Vec::new();
        self.collect(&selection, state, &mut out);
        assert(out@ =~= binding_effects(self, selection));
        if let Some(f) = state.focus {
            state.focus = Some(Focus { updated_at: now, ..f });
        }
        out
    }
}

/// An input event, as far as the editor's decisions go. Positions and
/// scroll amounts stay with the caller, who says whether the cursor is
/// over the text.
#[derive(Debug, Clone, PartialEq, Eq)]
pub enum InputEvent {
    LeftPressed { over_text: bool },
    LeftReleased,
    CursorMoved { over_text: bool },
    WheelScrolled { over_text: bool },
    KeyPressed { key: Key, modifiers: Modifiers, text: Option<String> },
    Other,
}

/// What an input event asks of the editor.
#[derive(Debug, PartialEq)]
pub enum Update<Message> {
    Click,
    Drag,
    Release,
    Scroll,
    Binding(Binding<Message>),
}

/// A key press as the editor receives it: focused while it has focus.
pub open spec fn key_press_of(
    s: EditorState,
    key: Key,
    modifiers: Modifiers,
    text: Option<String>,
) -> KeyPress {
    KeyPress {
        key,
        modifiers,
        text,
        status: if s.focus is Some {
            Status::Focused
        } else {
            Status::Active
        },
    }
}

/// What an input event asks of the editor in state `s`: a press of the
/// left button over the text clicks, elsewhere it unfocuses a focused
/// editor; a release ends a drag; moving the cursor over the text drags
/// after a single click; the wheel over the text scrolls; a key press
/// asks for its binding.
pub open spec fn update_of<M>(event: InputEvent, s: EditorState) -> Option<Update<M>> {
    match event {
        InputEvent::LeftPressed { over_text } => if over_text {
            Some(Update::Click)
        } else if s.focus is Some {
            Some(Update::Binding(Binding::Unfocus))
        } else {
            None
        },
        InputEvent::LeftReleased => Some(Update::Release),
        InputEvent::CursorMoved { over_text } => if s.drag_click == Some(ClickKind::Single)
            && over_text {
            Some(Update::Drag)
        } else {
            None
        },
        InputEvent::WheelScrolled { over_text } => if over_text {
            Some(Update::Scroll)
        } else {
            None
        },
        InputEvent::KeyPressed { key, modifiers, text } => match binding_of::<M>(
            key_press_of(s, key, modifiers, text),
        ) {
            Some(b) => Some(Update::Binding(b)),
            None => None,
        },
        InputEvent::Other => None,
    }
}

impl EditorState {
    /// A key press as the editor receives it in this state.
    pub fn key_press(&self, key: Key, modifiers: Modifiers, text: Option<String>) -> (res: KeyPress)
        ensures
            res == key_press_of(*self, key, modifiers, text),
    {
        let status = if self.focus.is_some() {
            Status::Focused
        } else {
            Status::Active
        };
        KeyPress { key, modifiers, text, status }
    }
}

/// The update a key binding asks for, if any.
pub open spec fn binding_update<M>(b: Option<Binding<M>>) -> Option<Update<M>> {
    match b {
        Some(x) => Some(Update::Binding(x)),
        None => None,
    }
}

impl<Message> Update<Message> {
    /// What an input event asks of the editor in state `state`. A key press
    /// is bound by `key_binding` when one is given, called once with the key
    /// press as the editor receives it; otherwise by the default bindings.
    pub fn from_event<F: Fn(KeyPress) -> Option<Binding<Message>>>(
        event: InputEvent,
        state: &EditorState,
        key_binding: Option<F>,
    ) -> (res: Option<Self>)
        requires
            key_binding matches Some(f) ==> (event matches InputEvent::KeyPressed {
                key,
                modifiers,
                text,
            } ==> f.requires((key_press_of(*state, key, modifiers, text),))),
        ensures
            match (key_binding, event) {
                (Some(f), InputEvent::KeyPressed { key, modifiers, text }) => exists|
                    b: Option<Binding<Message>>,
                |
                    #[trigger] f.ensures((key_press_of(*state, key, modifiers, text),), b) && res
                        == binding_update(b),
                _ => res == update_of::<Message>(event, *state),
            },
    {
        match event {
            InputEvent::LeftPressed { over_text } => {
                if over_text {
                    Some(Update::Click)
                } else if state.focus.is_some() {
                    Some(Update::Binding(Binding::Unfocus))
                } else {
                    None
                }
            },
            InputEvent::LeftReleased => Some(Update::Release),
            InputEvent::CursorMoved { over_text } => {
                if over_text && state.drag_click == Some(ClickKind::Single) {
                    Some(Update::Drag)
                } else {
                    None
                }
            },
            InputEvent::WheelScrolled { over_text } => {
                if over_text {
                    Some(Update::Scroll)
                } else {
                    None
                }
            },
            InputEvent::KeyPressed { key, modifiers, text } => {
                let press = state.key_press(key, modifiers, text);
                let bound = match key_binding {
                    Some(f) => f(press),
                    None => Binding::from_key_press(press),
                };
                match bound {
                    Some(b) => Some(Update::Binding(b)),
                    None => None,
                }
            },
            InputEvent::Other => None,
        }
    }
}

/// A key press of the editor while it has focus, with no text.
pub open spec fn focused_press(key: Key, modifiers: Modifiers) -> KeyPress {
    KeyPress { key, modifiers, text: None, status: Status::Focused }
}

/// The binding of a cursor key: a move, or with Shift a selection.
pub open spec fn cursor_binding<M>(shift: bool, motion: Motion) -> Option<Binding<M>> {
    if shift {
        Some(Binding::Select(motion))
    } else {
        Some(Binding::Move(motion))
    }
}

/// Each arrow key moves the cursor its own way: without the word-jump or
/// macOS command modifiers, Up moves (or with Shift selects) up, Down
/// down, Left left and Right right; and under any modifiers the opposite
/// arrows never give the same binding.
pub proof fn lemma_arrows_move_their_own_way<M>(m: Modifiers)
    ensures
        !m.jump && !m.macos_command ==> {
            &&& binding_of::<M>(focused_press(Key::Named(Named::ArrowUp), m)) == cursor_binding::<M>(
                m.shift,
                Motion::Up,
            )
            &&& binding_of::<M>(focused_press(Key::Named(Named::ArrowDown), m))
                == cursor_binding::<M>(m.shift, Motion::Down)
            &&& binding_of::<M>(focused_press(Key::Named(Named::ArrowLeft), m))
                == cursor_binding::<M>(m.shift, Motion::Left)
            &&& binding_of::<M>(focused_press(Key::Named(Named::ArrowRight), m))
                == cursor_binding::<M>(m.shift, Motion::Right)
        },
        binding_of::<M>(focused_press(Key::Named(Named::ArrowUp), m)) != binding_of::<M>(
            focused_press(Key::Named(Named::ArrowDown), m),
        ),
        binding_of::<M>(focused_press(Key::Named(Named::ArrowLeft), m)) != binding_of::<M>(
            focused_press(Key::Named(Named::ArrowRight), m),
        ),
        binding_of::<M>(focused_press(Key::Named(Named::ArrowUp), m)) is Some,
        binding_of::<M>(focused_press(Key::Named(Named::ArrowDown), m)) is Some,
{
}

/// The editing keys of a focused editor, under any modifiers and text:
/// Enter breaks the line, Backspace erases before the cursor, Escape
/// unfocuses, and Delete without text erases after the cursor; an editor
/// without focus binds no key at all.
pub proof fn lemma_editing_keys<M>(m: Modifiers, text: Option<String>, key: Key)
    ensures
        binding_of::<M>(KeyPress { key: Key::Named(Named::Enter), modifiers: m, text, status: Status::Focused }) == Some(Binding::<M>::Enter),
        binding_of::<M>(KeyPress { key: Key::Named(Named::Backspace), modifiers: m, text, status: Status::Focused }) == Some(Binding::<M>::Backspace),
        binding_of::<M>(KeyPress { key: Key::Named(Named::Escape), modifiers: m, text, status: Status::Focused }) == Some(Binding::<M>::Unfocus),
        binding_of::<M>(focused_press(Key::Named(Named::Delete), m)) == Some(Binding::<M>::Delete),
        binding_of::<M>(KeyPress { key, modifiers: m, text, status: Status::Active }) is None,
        binding_of::<M>(KeyPress { key, modifiers: m, text, status: Status::Hovered }) is None,
        binding_of::<M>(KeyPress { key, modifiers: m, text, status: Status::Disabled }) is None,
{
}

/// The clipboard shortcuts, with the command modifier held and whatever
/// text comes with the key, the key being the character `c` alone: `c` copies, `x` cuts, `a` selects all, and `v`
/// pastes unless Alt is held too.
pub proof fn lemma_clipboard_shortcuts<M>(m: Modifiers, text: Option<String>, key: Key, c: char)
    requires
        m.command,
        is_char_key(key, c),
    ensures
        c == 'c' ==> binding_of::<M>(KeyPress { key, modifiers: m, text, status: Status::Focused }) == Some(Binding::<M>::Copy),
        c == 'x' ==> binding_of::<M>(KeyPress { key, modifiers: m, text, status: Status::Focused }) == Some(Binding::<M>::Cut),
        c == 'a' ==> binding_of::<M>(KeyPress { key, modifiers: m, text, status: Status::Focused }) == Some(Binding::<M>::SelectAll),
        c == 'v' && !m.alt ==> binding_of::<M>(KeyPress { key, modifiers: m, text, status: Status::Focused }) == Some(Binding::<M>::Paste),
{
    if let Key::Character(t) = key {
        assert(t@[0] == c);
        assert(seq!['c'][0] == 'c' && seq!['x'][0] == 'x' && seq!['v'][0] == 'v');
    }
}

/// What the editing bindings publish, whatever the selection: inserting a
/// character publishes its insertion, Enter a line break, Backspace the
/// erasure before the cursor and Delete the one after it, which differ;
/// none of them changes the editor's focus.
pub proof fn lemma_edit_bindings_publish_their_edit<M>(
    c: char,
    selection: Option<String>,
    s: EditorState,
)
    ensures
        binding_effects(Binding::<M>::Insert(c), selection) == seq![
            Effect::<M>::Publish(Action::Insert(c)),
        ],
        binding_effects(Binding::<M>::Enter, selection) == seq![Effect::<M>::Publish(Action::Enter)],
        binding_effects(Binding::<M>::Backspace, selection) == seq![
            Effect::<M>::Publish(Action::Backspace),
        ],
        binding_effects(Binding::<M>::Delete, selection) == seq![
            Effect::<M>::Publish(Action::Delete),
        ],
        binding_effects(Binding::<M>::Backspace, selection) != binding_effects(
            Binding::<M>::Delete,
            selection,
        ),
        state_after(s, Binding::<M>::Backspace) == s,
        state_after(s, Binding::<M>::Delete) == s,
        state_after(s, Binding::<M>::Insert(c)) == s,
        state_after(s, Binding::<M>::Enter) == s,
{
    assert(seq![Effect::<M>::Publish(Action::Backspace)][0] != seq![
        Effect::<M>::Publish(Action::Delete),
    ][0]);
}

/// The clipboard bindings: copying writes the selection to the clipboard,
/// cutting writes it and then erases it, and both do nothing without a
/// selection; pasting reads the clipboard; unfocusing drops the focus and
/// ends any drag, and publishes nothing.
pub proof fn lemma_clipboard_bindings<M>(selection: Option<String>, s: EditorState)
    ensures
        binding_effects(Binding::<M>::Copy, selection) == (match selection {
            Some(t) => seq![Effect::<M>::Copy(t)],
            None => Seq::<Effect<M>>::empty(),
        }),
        binding_effects(Binding::<M>::Cut, selection) == (match selection {
            Some(t) => seq![Effect::<M>::Copy(t), Effect::<M>::Publish(Action::Delete)],
            None => Seq::<Effect<M>>::empty(),
        }),
        binding_effects(Binding::<M>::Paste, selection) == seq![Effect::<M>::Paste],
        binding_effects(Binding::<M>::Unfocus, selection).len() == 0,
        state_after(s, Binding::<M>::Unfocus).focus is None,
        state_after(s, Binding::<M>::Unfocus).drag_click is None,
        state_after(s, Binding::<M>::Copy) == s,
        state_after(s, Binding::<M>::Cut) == s,
        state_after(s, Binding::<M>::Paste) == s,
{
}

/// What mouse events ask of the editor: a press over the text clicks; a
/// press elsewhere unfocuses a focused editor and is ignored by one without
/// focus; a release always ends a drag; moving over the text drags only
/// after a single click; the wheel scrolls only over the text; and a key
/// press does nothing to an editor without focus.
pub proof fn lemma_mouse_and_keys<M>(s: EditorState, over: bool, key: Key, m: Modifiers, text: Option<String>)
    ensures
        update_of::<M>(InputEvent::LeftPressed { over_text: true }, s) == Some(Update::<M>::Click),
        s.focus is Some ==> update_of::<M>(InputEvent::LeftPressed { over_text: false }, s)
            == Some(Update::<M>::Binding(Binding::Unfocus)),
        s.focus is None ==> update_of::<M>(InputEvent::LeftPressed { over_text: false }, s) is None,
        update_of::<M>(InputEvent::LeftReleased, s) == Some(Update::<M>::Release),
        update_of::<M>(InputEvent::CursorMoved { over_text: over }, s) is Some <==> (over
            && s.drag_click == Some(ClickKind::Single)),
        update_of::<M>(InputEvent::CursorMoved { over_text: over }, s) is Some
            ==> update_of::<M>(InputEvent::CursorMoved { over_text: over }, s) == Some(
            Update::<M>::Drag,
        ),
        update_of::<M>(InputEvent::WheelScrolled { over_text: true }, s) == Some(
            Update::<M>::Scroll,
        ),
        update_of::<M>(InputEvent::WheelScrolled { over_text: false }, s) is None,
        s.focus is None ==> update_of::<M>(
            InputEvent::KeyPressed { key, modifiers: m, text },
            s,
        ) is None,
        update_of::<M>(InputEvent::Other, s) is None,
{
}

/// Typing inserts the first printable character of the typed text: a key
/// that is no named editing key and no command shortcut, pressed in a
/// focused editor with text, inserts that character, or nothing when the
/// text holds only control characters.
pub proof fn lemma_typing_inserts<M>(c: char, key: Key, m: Modifiers, t: String)
    requires
        !m.command,
        key is Character,
    ensures
        binding_of::<M>(KeyPress { key, modifiers: m, text: Some(t), status: Status::Focused })
            == match first_printable(t@) {
            Some(x) => Some(Binding::<M>::Insert(x)),
            None => None::<Binding<M>>,
        },
        !is_control(c) ==> first_printable(seq![c]) == Some(c),
        is_control(c) ==> first_printable(seq![c]) is None,
{
    assert(seq![c].drop_first() =~= Seq::<char>::empty());
    assert(first_printable(Seq::<char>::empty()) is None);
}

/// The modifiers widen a cursor motion: the word-jump modifier moves by
/// words left and right and to the document's ends from the line's ends,
/// and on macOS the command key turns left and right into the line's ends.
pub proof fn lemma_modifiers_widen_motions(m: Modifiers)
    ensures
        Motion::Left.widened() == Motion::WordLeft,
        Motion::Right.widened() == Motion::WordRight,
        Motion::Home.widened() == Motion::DocumentStart,
        Motion::End.widened() == Motion::DocumentEnd,
        Motion::Up.widened() == Motion::Up,
        Motion::Down.widened() == Motion::Down,
        m.macos_command && !m.jump ==> modified_motion(Motion::Left, m) == Motion::Home
            && modified_motion(Motion::Right, m) == Motion::End,
        m.macos_command && m.jump ==> modified_motion(Motion::Left, m) == Motion::DocumentStart
            && modified_motion(Motion::Right, m) == Motion::DocumentEnd,
        !m.macos_command && m.jump ==> modified_motion(Motion::Left, m) == Motion::WordLeft
            && modified_motion(Motion::Right, m) == Motion::WordRight,
{
}

/// An empty sequence of bindings does nothing, and a sequence of one
/// binding acts as that binding.
pub proof fn lemma_short_sequences<M>(b: Binding<M>, selection: Option<String>)
    ensures
        sequence_effects(Seq::<Binding<M>>::empty(), selection).len() == 0,
        !sequence_unfocuses(Seq::<Binding<M>>::empty()),
        sequence_effects(seq![b], selection) == binding_effects(b, selection),
        sequence_unfocuses(seq![b]) == unfocuses(b),
{
    assert(seq![b].drop_last() =~= Seq::<Binding<M>>::empty());
    assert(Seq::<Effect<M>>::empty() + binding_effects(b, selection) =~= binding_effects(
        b,
        selection,
    ));
}

/// Applying a binding that keeps the focus restarts the cursor's blink at
/// that time and leaves the drag as it is; one that unfocuses leaves no
/// focus and no drag.
pub proof fn lemma_bindings_restart_the_blink<M>(s: EditorState, b: Binding<M>, now: u64)
    ensures
        !unfocuses(b) ==> state_after_binding(s, b, now).drag_click == s.drag_click,
        !unfocuses(b) && s.focus is Some ==> state_after_binding(s, b, now).focus == Some(
            (Focus { updated_at: now, ..s.focus->0 }),
        ),
        !unfocuses(b) && s.focus is None ==> state_after_binding(s, b, now).focus is None,
        unfocuses(b) ==> state_after_binding(s, b, now) == (EditorState {
            focus: None,
            drag_click: None,
        }),
        unfocuses(Binding::<M>::Unfocus),
        !unfocuses(Binding::<M>::Enter),
{
}

} // verus!
