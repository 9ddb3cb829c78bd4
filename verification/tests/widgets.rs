use senra::widgets::editor::bindings::{
    char_is_control, find_printable, motion, Action, Binding, Effect, InputEvent, Key, KeyPress,
    Modifiers, Motion, Named, Update,
};
use senra::widgets::editor::content::text;
use senra::widgets::editor::highlighter::{
    change_line, error_span, error_spans, font_style, needs_snapshot, FontStyle, ScopeRanges,
};
use senra::widgets::editor::state::{
    is_cursor_visible, millis_until_redraw, ClickKind, EditorState, Focus, Redraw, WindowEvent,
};
use senra::widgets::editor::style::{interaction, status, Interaction, Status};
use senra::widgets::editor::Syntax;
use senra::widgets::menu::{Axis, BarEvent, Direction, MenuBarState};

fn no_mods() -> Modifiers {
    Modifiers { command: false, alt: false, macos_command: false, jump: false, shift: false }
}

fn press(key: Key, modifiers: Modifiers, text: Option<&str>) -> KeyPress {
    KeyPress { key, modifiers, text: text.map(|t| t.to_string()), status: Status::Focused }
}

#[test]
fn syntax_keys() {
    assert_eq!(Syntax::PlainText.key(), "plain_text");
    assert_eq!(Syntax::Markdown.key(), "markdown");
    assert_eq!(Syntax::Wgsl.key(), "wgsl");
    assert_eq!(Syntax::default(), Syntax::PlainText);
}

#[test]
fn unfocused_editor_binds_nothing() {
    let mut p = press(Key::Named(Named::Enter), no_mods(), None);
    p.status = Status::Active;
    assert!(Binding::<()>::from_key_press(p).is_none());
}

#[test]
fn named_editing_keys() {
    assert_eq!(Binding::<()>::from_key_press(press(Key::Named(Named::Enter), no_mods(), None)), Some(Binding::Enter));
    assert_eq!(Binding::<()>::from_key_press(press(Key::Named(Named::Backspace), no_mods(), None)), Some(Binding::Backspace));
    assert_eq!(Binding::<()>::from_key_press(press(Key::Named(Named::Delete), no_mods(), None)), Some(Binding::Delete));
    assert_eq!(Binding::<()>::from_key_press(press(Key::Named(Named::Escape), no_mods(), None)), Some(Binding::Unfocus));
}

#[test]
fn delete_with_text_inserts_the_text() {
    assert_eq!(
        Binding::<()>::from_key_press(press(Key::Named(Named::Delete), no_mods(), Some("\u{7f}z"))),
        Some(Binding::Insert('z'))
    );
}

#[test]
fn clipboard_shortcuts() {
    let cmd = Modifiers { command: true, ..no_mods() };
    let ch = |c: &str| Key::Character(c.to_string());
    assert_eq!(Binding::<()>::from_key_press(press(ch("c"), cmd, Some("c"))), Some(Binding::Copy));
    assert_eq!(Binding::<()>::from_key_press(press(ch("x"), cmd, Some("x"))), Some(Binding::Cut));
    assert_eq!(Binding::<()>::from_key_press(press(ch("v"), cmd, Some("v"))), Some(Binding::Paste));
    assert_eq!(Binding::<()>::from_key_press(press(ch("a"), cmd, Some("a"))), Some(Binding::SelectAll));
    let cmd_alt = Modifiers { alt: true, ..cmd };
    assert_eq!(Binding::<()>::from_key_press(press(ch("v"), cmd_alt, Some("v"))), Some(Binding::Insert('v')));
    assert_eq!(Binding::<()>::from_key_press(press(ch("c"), no_mods(), Some("c"))), Some(Binding::Insert('c')));
}

#[test]
fn control_only_text_binds_nothing() {
    assert!(Binding::<()>::from_key_press(press(Key::Character("\u{1}".to_string()), no_mods(), Some("\u{1}\u{9f}"))).is_none());
    assert!(char_is_control('\u{0}'));
    assert!(char_is_control('\u{9f}'));
    assert!(!char_is_control('\u{a0}'));
    assert_eq!(find_printable("\u{1b}\u{85}é"), Some('é'));
    assert_eq!(find_printable(""), None);
}

#[test]
fn arrows_move_or_select() {
    assert_eq!(Binding::<()>::from_key_press(press(Key::Named(Named::ArrowLeft), no_mods(), None)), Some(Binding::Move(Motion::Left)));
    let shift = Modifiers { shift: true, ..no_mods() };
    assert_eq!(Binding::<()>::from_key_press(press(Key::Named(Named::ArrowUp), shift, None)), Some(Binding::Select(Motion::Up)));
    let jump = Modifiers { jump: true, ..no_mods() };
    assert_eq!(Binding::<()>::from_key_press(press(Key::Named(Named::ArrowRight), jump, None)), Some(Binding::Move(Motion::WordRight)));
    let mac = Modifiers { macos_command: true, ..no_mods() };
    assert_eq!(Binding::<()>::from_key_press(press(Key::Named(Named::ArrowLeft), mac, None)), Some(Binding::Move(Motion::Home)));
    let mac_jump = Modifiers { macos_command: true, jump: true, shift: true, ..no_mods() };
    assert_eq!(Binding::<()>::from_key_press(press(Key::Named(Named::ArrowRight), mac_jump, None)), Some(Binding::Select(Motion::DocumentEnd)));
    assert!(Binding::<()>::from_key_press(press(Key::Named(Named::Other), no_mods(), None)).is_none());
    assert!(Binding::<()>::from_key_press(press(Key::Unidentified, no_mods(), None)).is_none());
}

#[test]
fn motions_of_named_keys() {
    assert_eq!(motion(Named::PageDown), Some(Motion::PageDown));
    assert_eq!(motion(Named::Home), Some(Motion::Home));
    assert_eq!(motion(Named::Enter), None);
    assert_eq!(Motion::End.widen(), Motion::DocumentEnd);
    assert_eq!(Motion::Up.widen(), Motion::Up);
}

#[test]
fn document_text_ends_with_a_line_break() {
    assert_eq!(text(&vec![]), "\n");
    assert_eq!(text(&vec!["a".to_string(), "b".to_string()]), "a\nb\n");
    assert_eq!(text(&vec!["a".to_string(), "".to_string()]), "a\n");
    assert_eq!(text(&vec!["x\n".to_string()]), "x\n");
}

#[test]
fn highlighter_restarts_at_snapshots() {
    assert_eq!(change_line(3, 120), (2, 100));
    assert_eq!(change_line(3, 10), (0, 0));
    assert_eq!(change_line(1, 120), (1, 0));
    assert!(needs_snapshot(100, 2));
    assert!(!needs_snapshot(99, 2));
}

#[test]
fn error_ranges_on_a_line() {
    assert_eq!(error_span(3, 4, 3, 4, 10), Some((0, 10)));
    assert_eq!(error_span(5, 6, 3, 7, 10), Some((2, 3)));
    assert_eq!(error_span(2, 4, 3, 4, 10), None);
    assert_eq!(error_span(3, 9, 3, 4, 10), None);
}

#[test]
fn scope_ranges_cover_the_line() {
    let mut it = ScopeRanges::new(vec![2, 5], 8);
    assert_eq!(it.next(), Some((0, 2, None)));
    assert_eq!(it.next(), Some((2, 5, Some(0))));
    assert_eq!(it.next(), Some((5, 8, Some(1))));
    assert_eq!(it.next(), None);
    assert_eq!(it.next(), None);
}

#[test]
fn cursor_blinks_every_half_second() {
    assert!(is_cursor_visible(true, 0));
    assert!(is_cursor_visible(true, 499));
    assert!(!is_cursor_visible(true, 500));
    assert!(is_cursor_visible(true, 1000));
    assert!(!is_cursor_visible(false, 0));
    assert_eq!(millis_until_redraw(0), 500);
    assert_eq!(millis_until_redraw(1200), 300);
}

#[test]
fn direction_and_axis() {
    assert_eq!(Direction::Positive.flip(), Direction::Negative);
    assert_eq!(Direction::Negative.flip().flip(), Direction::Negative);
    assert_eq!(Axis::Horizontal.pack(1, 2), (1, 2));
    assert_eq!(Axis::Vertical.pack(1, 2), (2, 1));
}

#[test]
fn menu_bar_click_toggles_and_moving_off_closes() {
    let mut bar = MenuBarState::default();
    assert!(!bar.on_event(BarEvent::LeftPressed, false, None));
    assert!(bar.on_event(BarEvent::LeftPressed, true, Some(1)));
    assert!(bar.is_pressed);
    assert!(bar.on_event(BarEvent::LeftReleased, true, Some(1)));
    assert!(bar.open && !bar.is_pressed);
    assert_eq!(bar.active_root, Some(1));
    assert!(bar.on_event(BarEvent::CursorMoved, true, Some(2)));
    assert_eq!(bar.active_root, Some(2));
    assert!(bar.on_event(BarEvent::CursorMoved, false, None));
    assert!(!bar.open);
    assert!(!bar.on_event(BarEvent::CursorMoved, true, Some(0)));
    assert!(!bar.on_event(BarEvent::Other, true, Some(0)));
    assert!(!bar.on_event(BarEvent::LeftReleased, true, Some(0)));
}

type NoBinding = fn(KeyPress) -> Option<Binding<()>>;

fn default_update(event: InputEvent, state: &EditorState) -> Option<Update<()>> {
    Update::from_event(event, state, None::<NoBinding>)
}

fn focused_at(t: u64) -> EditorState {
    EditorState { focus: Some(Focus::at(t)), drag_click: None }
}

#[test]
fn clicks_focus_and_select() {
    let mut s = EditorState::new();
    assert!(!s.is_focused());
    assert_eq!(s.on_click(ClickKind::Single, 10), Action::Click);
    assert_eq!(s.focus, Some(Focus { updated_at: 10, now: 10, is_window_focused: true }));
    assert_eq!(s.drag_click, Some(ClickKind::Single));
    assert_eq!(s.on_click(ClickKind::Double, 20), Action::SelectWord);
    assert_eq!(s.on_click(ClickKind::Triple, 30), Action::SelectLine);
    assert_eq!(s.drag_click, Some(ClickKind::Triple));
    s.on_release();
    assert_eq!(s.drag_click, None);
    assert!(s.is_focused());
}

#[test]
fn window_events_drive_the_blink() {
    let mut s = focused_at(1000);
    assert_eq!(s.on_window_event(WindowEvent::RedrawRequested(1200)), Some(Redraw::At(1500)));
    assert_eq!(s.focus.unwrap().now, 1200);
    assert!(s.focus.unwrap().cursor_visible());
    assert_eq!(s.on_window_event(WindowEvent::RedrawRequested(1700)), Some(Redraw::At(2000)));
    assert!(!s.focus.unwrap().cursor_visible());
    assert_eq!(s.on_window_event(WindowEvent::Unfocused), None);
    assert!(!s.focus.unwrap().cursor_visible());
    assert_eq!(s.on_window_event(WindowEvent::RedrawRequested(1800)), None);
    assert_eq!(s.on_window_event(WindowEvent::Focused(1900)), Some(Redraw::NextFrame));
    assert_eq!(s.focus.unwrap().updated_at, 1900);
    let mut idle = EditorState::new();
    assert_eq!(idle.on_window_event(WindowEvent::Focused(5)), None);
    assert_eq!(idle, EditorState::new());
}

#[test]
fn input_events_become_updates() {
    let idle = EditorState::new();
    let focused = focused_at(0);
    let inside = InputEvent::LeftPressed { over_text: true };
    let outside = InputEvent::LeftPressed { over_text: false };
    assert_eq!(default_update(inside, &idle), Some(Update::Click));
    assert_eq!(default_update(outside.clone(), &idle), None);
    assert_eq!(
        default_update(outside, &focused),
        Some(Update::Binding(Binding::Unfocus))
    );
    assert_eq!(default_update(InputEvent::LeftReleased, &idle), Some(Update::Release));
    let moved = InputEvent::CursorMoved { over_text: true };
    assert_eq!(default_update(moved.clone(), &focused), None);
    let dragging = EditorState { focus: None, drag_click: Some(ClickKind::Single) };
    assert_eq!(default_update(moved, &dragging), Some(Update::Drag));
    let word_drag = EditorState { focus: None, drag_click: Some(ClickKind::Double) };
    assert_eq!(default_update(InputEvent::CursorMoved { over_text: true }, &word_drag), None);
    assert_eq!(
        default_update(InputEvent::WheelScrolled { over_text: true }, &idle),
        Some(Update::Scroll)
    );
    assert_eq!(default_update(InputEvent::WheelScrolled { over_text: false }, &idle), None);
    let enter = InputEvent::KeyPressed { key: Key::Named(Named::Enter), modifiers: no_mods(), text: None };
    assert_eq!(default_update(enter.clone(), &idle), None);
    assert_eq!(default_update(enter, &focused), Some(Update::Binding(Binding::Enter)));
    assert_eq!(default_update(InputEvent::Other, &focused), None);
    assert_eq!(focused.key_press(Key::Unidentified, no_mods(), None).status, Status::Focused);
    assert_eq!(idle.key_press(Key::Unidentified, no_mods(), None).status, Status::Active);
}

#[test]
fn bindings_apply_in_order() {
    let mut s = focused_at(0);
    let b: Binding<u8> = Binding::Sequence(vec![
        Binding::Copy,
        Binding::Cut,
        Binding::Sequence(vec![Binding::Insert('x'), Binding::Custom(7)]),
        Binding::Paste,
        Binding::Move(Motion::Left),
    ]);
    let effects = b.apply(&mut s, Some("sel".to_string()), 40);
    assert_eq!(
        effects,
        vec![
            Effect::Copy("sel".to_string()),
            Effect::Copy("sel".to_string()),
            Effect::Publish(Action::Delete),
            Effect::Publish(Action::Insert('x')),
            Effect::Custom(7),
            Effect::Paste,
            Effect::Publish(Action::Move(Motion::Left)),
        ]
    );
    assert_eq!(s.focus.unwrap().updated_at, 40);
}

#[test]
fn copy_and_cut_need_a_selection() {
    let mut s = focused_at(0);
    let b: Binding<()> = Binding::Sequence(vec![Binding::Copy, Binding::Cut, Binding::SelectAll]);
    assert_eq!(b.apply(&mut s, None, 1), vec![Effect::Publish(Action::SelectAll)]);
}

#[test]
fn unfocus_in_a_sequence_drops_focus() {
    let mut s = EditorState { focus: Some(Focus::at(0)), drag_click: Some(ClickKind::Single) };
    let b: Binding<()> = Binding::Sequence(vec![Binding::Enter, Binding::Unfocus, Binding::Delete]);
    let effects = b.apply(&mut s, None, 9);
    assert_eq!(effects, vec![Effect::Publish(Action::Enter), Effect::Publish(Action::Delete)]);
    assert_eq!(s, EditorState::new());
}

#[test]
fn draw_status_and_pointer() {
    assert_eq!(status(true, true, true), Status::Disabled);
    assert_eq!(status(false, true, true), Status::Focused);
    assert_eq!(status(false, false, true), Status::Hovered);
    assert_eq!(status(false, false, false), Status::Active);
    assert_eq!(interaction(false, false), Interaction::Idle);
    assert_eq!(interaction(true, true), Interaction::NotAllowed);
    assert_eq!(interaction(true, false), Interaction::Text);
}

#[test]
fn error_spans_keep_the_ranges_on_the_line() {
    // Line 3 spans [3, 4]; its text is 12 bytes long.
    let errors = vec![3..4, 0..2, 3..3, 5..9, 3..4];
    assert_eq!(error_spans(&errors, 3, 4, 12), vec![(0, 12), (0, 0), (0, 12)]);
    assert_eq!(error_spans(&Vec::new(), 3, 4, 12), vec![]);
}

#[test]
fn highlight_fonts() {
    assert_eq!(font_style(false, false, false), None);
    assert_eq!(font_style(true, false, false), Some(FontStyle { bold: true, italic: false }));
    assert_eq!(font_style(false, true, false), Some(FontStyle { bold: false, italic: true }));
    assert_eq!(font_style(false, false, true), Some(FontStyle { bold: false, italic: false }));
}

#[test]
fn a_sequence_acts_as_its_parts_in_turn() {
    let part = |v: Vec<Binding<()>>| Binding::Sequence(v);
    let mut whole_state = focused_at(0);
    let whole = part(vec![Binding::SelectAll, Binding::Cut, Binding::Unfocus, Binding::Paste])
        .apply(&mut whole_state, Some("t".to_string()), 5);
    let mut split_state = focused_at(0);
    let mut split = part(vec![Binding::SelectAll, Binding::Cut])
        .apply(&mut split_state, Some("t".to_string()), 5);
    split.extend(part(vec![Binding::Unfocus, Binding::Paste]).apply(
        &mut split_state,
        Some("t".to_string()),
        5,
    ));
    assert_eq!(whole, split);
    assert_eq!(whole_state, split_state);
    assert_eq!(whole_state, EditorState::new());
}

#[test]
fn custom_key_bindings_replace_the_defaults() {
    let focused = focused_at(0);
    let idle = EditorState::new();
    let calls = std::cell::Cell::new(0);
    let custom = |p: KeyPress| -> Option<Binding<u8>> {
        calls.set(calls.get() + 1);
        if p.status == Status::Focused {
            Some(Binding::Custom(9))
        } else {
            None
        }
    };
    let enter = || InputEvent::KeyPressed {
        key: Key::Named(Named::Enter),
        modifiers: no_mods(),
        text: None,
    };
    assert_eq!(Update::from_event(enter(), &focused, Some(&custom)), Some(Update::Binding(Binding::Custom(9))));
    assert_eq!(calls.get(), 1);
    assert_eq!(Update::from_event(enter(), &idle, Some(&custom)), None);
    assert_eq!(calls.get(), 2);
    assert_eq!(
        Update::from_event(InputEvent::LeftPressed { over_text: true }, &idle, Some(&custom)),
        Some(Update::Click)
    );
    assert_eq!(calls.get(), 2);
    assert_eq!(
        Update::from_event(enter(), &focused, None::<fn(KeyPress) -> Option<Binding<u8>>>),
        Some(Update::Binding(Binding::Enter))
    );
}
