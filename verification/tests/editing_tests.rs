use textedit::clipboard::Clipboard;
use textedit::context::{Context, DropPolicy, Entity, HostEvent, VisualState};
use textedit::geometry::{Point, Rectangle};
use textedit::measure::FixedWidthMeasurer;
use textedit::selection::TextSelection;
use textedit::text_behavior::{TextAction, TextBehaviorState};
use textedit::text_buffer::TextBuffer;
use textedit::viewport::Direction;

fn field(text: &str, start: usize, end: usize) -> Context<FixedWidthMeasurer> {
    let mut ctx = Context::new(FixedWidthMeasurer::new(10, 8));
    ctx.text = TextBuffer::from_str(text);
    ctx.selection = TextSelection::new(start, end);
    ctx.focused = true;
    ctx.visual_state = VisualState::Focused;
    ctx.viewport_width = 100;
    ctx.target = Entity(7);
    ctx
}

fn engine(ctx: &mut Context<FixedWidthMeasurer>) -> TextBehaviorState {
    let mut state = TextBehaviorState::new();
    state.init(ctx);
    ctx.caret.visible = true;
    ctx.events.clear();
    state
}

#[test]
fn insert_text_replaces_the_selection() {
    let mut ctx = field("hello world", 2, 5);
    let mut state = engine(&mut ctx);
    state.insert_text("X".to_string(), &mut ctx);
    assert_eq!(ctx.text.to_string(), "heX world");
    assert_eq!(ctx.selection, TextSelection::new(3, 3));
    assert_eq!(state.direction(), Direction::Right);
    assert!(state.is_self_update());
    assert!(ctx.events.is_empty());
    assert_eq!(ctx.visual_state, VisualState::Focused);
}

#[test]
fn insert_text_replaces_a_reversed_selection() {
    let mut ctx = field("hello world", 5, 2);
    let mut state = engine(&mut ctx);
    state.insert_text("X".to_string(), &mut ctx);
    assert_eq!(ctx.text.to_string(), "heX world");
    assert_eq!(ctx.selection, TextSelection::new(3, 3));
}

#[test]
fn insert_text_at_a_caret() {
    let mut ctx = field("held", 3, 3);
    let mut state = engine(&mut ctx);
    state.insert_text("lo wor".to_string(), &mut ctx);
    assert_eq!(ctx.text.to_string(), "hello word");
    assert_eq!(ctx.selection, TextSelection::new(9, 9));
}

#[test]
fn insert_empty_text_is_a_noop() {
    let mut ctx = field("hello", 1, 3);
    let mut state = engine(&mut ctx);
    state.insert_text(String::new(), &mut ctx);
    assert_eq!(ctx.text.to_string(), "hello");
    assert_eq!(ctx.selection, TextSelection::new(1, 3));
    assert_eq!(state.direction(), Direction::Unset);
    assert!(!state.is_self_update());
}

#[test]
fn insert_text_counts_the_caret_in_code_units() {
    let mut ctx = field("ab", 1, 1);
    let mut state = engine(&mut ctx);
    state.insert_text("\u{1F600}\u{e9}".to_string(), &mut ctx);
    assert_eq!(ctx.text.to_string(), "a\u{1F600}\u{e9}b");
    assert_eq!(ctx.text.len(), 5);
    assert_eq!(ctx.selection, TextSelection::new(4, 4));
}

#[test]
fn insert_into_an_empty_buffer_shows_the_field_as_focused() {
    let mut ctx = field("", 0, 0);
    ctx.visual_state = VisualState::EmptyFocused;
    let mut state = engine(&mut ctx);
    state.insert_text("a".to_string(), &mut ctx);
    assert_eq!(ctx.text.to_string(), "a");
    assert_eq!(ctx.selection, TextSelection::new(1, 1));
    assert_eq!(ctx.visual_state, VisualState::Focused);
    assert_eq!(ctx.events, vec![HostEvent::Refresh(Entity(7))]);
}

#[test]
fn insert_over_the_whole_text_passes_through_the_empty_state() {
    let mut ctx = field("abc", 0, 3);
    let mut state = engine(&mut ctx);
    state.insert_text("z".to_string(), &mut ctx);
    assert_eq!(ctx.text.to_string(), "z");
    assert_eq!(ctx.selection, TextSelection::new(1, 1));
    assert_eq!(ctx.visual_state, VisualState::Focused);
    // once when the selection emptied the buffer, once after the insertion
    assert_eq!(ctx.events, vec![HostEvent::Refresh(Entity(7)), HostEvent::Refresh(Entity(7))]);
}

#[test]
fn insert_with_a_caret_beyond_the_text_appends() {
    let mut ctx = field("abc", 9, 9);
    let mut state = engine(&mut ctx);
    state.insert_text("de".to_string(), &mut ctx);
    assert_eq!(ctx.text.to_string(), "abcde");
    assert_eq!(ctx.selection, TextSelection::new(5, 5));
}

#[test]
fn clear_selection_on_a_collapsed_selection_changes_nothing() {
    for (text, caret) in [("", 0), ("hello", 0), ("hello", 3), ("hello", 5), ("hello", 9)] {
        let mut ctx = field(text, caret, caret);
        ctx.caret.scroll = 25;
        let mut state = engine(&mut ctx);
        let visual_state = ctx.visual_state;
        assert!(!state.clear_selection(&mut ctx));
        assert_eq!(ctx.text.to_string(), text);
        assert_eq!(ctx.selection, TextSelection::new(caret, caret));
        assert_eq!(ctx.caret.scroll, 25);
        assert_eq!(ctx.visual_state, visual_state);
        assert!(ctx.events.is_empty());
        assert!(!state.is_self_update());
        assert_eq!(state.direction(), Direction::Unset);
    }
}

#[test]
fn clear_selection_removes_the_range_and_scrolls_back() {
    let mut ctx = field("hello world", 8, 3);
    ctx.caret.scroll = 70;
    let mut state = engine(&mut ctx);
    assert!(state.clear_selection(&mut ctx));
    assert_eq!(ctx.text.to_string(), "helrld");
    assert_eq!(ctx.selection, TextSelection::new(3, 3));
    // five glyphs of 10 pixels were removed: offset -70 + 50
    assert_eq!(ctx.caret.offset(), -20);
    assert!(state.is_self_update());
    assert!(ctx.events.is_empty());
}

#[test]
fn clear_selection_never_scrolls_past_the_start() {
    let mut ctx = field("hello world", 0, 5);
    ctx.caret.scroll = 30;
    let mut state = engine(&mut ctx);
    assert!(state.clear_selection(&mut ctx));
    assert_eq!(ctx.text.to_string(), " world");
    assert_eq!(ctx.caret.offset(), 0);
}

#[test]
fn clear_selection_of_everything_shows_the_field_as_empty() {
    let mut ctx = field("abc", 3, 0);
    let mut state = engine(&mut ctx);
    assert!(state.clear_selection(&mut ctx));
    assert!(ctx.text.is_empty());
    assert_eq!(ctx.selection, TextSelection::new(0, 0));
    assert_eq!(ctx.visual_state, VisualState::EmptyFocused);
    assert_eq!(ctx.events, vec![HostEvent::Refresh(Entity(7))]);
}

#[test]
fn clear_selection_clamps_a_range_that_leaves_the_text() {
    let mut ctx = field("hello", 3, 9);
    ctx.caret.scroll = 40;
    let mut state = engine(&mut ctx);
    assert!(state.clear_selection(&mut ctx));
    assert_eq!(ctx.text.to_string(), "hel");
    assert_eq!(ctx.selection, TextSelection::new(3, 3));
    // a range that is not one of the buffer measures as zero
    assert_eq!(ctx.caret.offset(), -40);
}

#[test]
fn backspace_at_the_start_is_a_noop() {
    let mut ctx = field("hello", 0, 0);
    ctx.caret.scroll = 5;
    let mut state = engine(&mut ctx);
    state.back_space(&mut ctx);
    assert_eq!(ctx.text.to_string(), "hello");
    assert_eq!(ctx.selection, TextSelection::new(0, 0));
    assert_eq!(ctx.caret.scroll, 5);
    assert!(!state.is_self_update());
    assert!(ctx.events.is_empty());
}

#[test]
fn backspace_removes_the_unit_before_the_caret() {
    let mut ctx = field("hello", 3, 3);
    ctx.caret.scroll = 15;
    let mut state = engine(&mut ctx);
    state.back_space(&mut ctx);
    assert_eq!(ctx.text.to_string(), "helo");
    assert_eq!(ctx.selection, TextSelection::new(2, 2));
    assert_eq!(ctx.caret.offset(), -5);
    assert!(state.is_self_update());
    state.back_space(&mut ctx);
    assert_eq!(ctx.text.to_string(), "hlo");
    assert_eq!(ctx.selection, TextSelection::new(1, 1));
    assert_eq!(ctx.caret.offset(), 0);
}

#[test]
fn backspace_deletes_a_selection_instead_of_a_unit() {
    let mut ctx = field("hello", 1, 3);
    let mut state = engine(&mut ctx);
    state.back_space(&mut ctx);
    assert_eq!(ctx.text.to_string(), "hlo");
    assert_eq!(ctx.selection, TextSelection::new(1, 1));
}

#[test]
fn backspace_of_the_last_unit_shows_the_field_as_empty() {
    let mut ctx = field("a", 1, 1);
    let mut state = engine(&mut ctx);
    state.back_space(&mut ctx);
    assert!(ctx.text.is_empty());
    assert_eq!(ctx.selection, TextSelection::new(0, 0));
    assert_eq!(ctx.visual_state, VisualState::EmptyFocused);
    assert_eq!(ctx.events, vec![HostEvent::Refresh(Entity(7))]);
}

#[test]
fn backspace_can_split_a_surrogate_pair() {
    let mut ctx = field("a\u{1F600}", 3, 3);
    let mut state = engine(&mut ctx);
    state.back_space(&mut ctx);
    assert_eq!(ctx.text.as_units(), &vec![0x61, 0xD83D]);
    assert_eq!(ctx.text.to_string(), "a\u{FFFD}");
    assert_eq!(ctx.selection, TextSelection::new(2, 2));
}

#[test]
fn delete_at_the_end_is_a_noop() {
    for caret in [5, 6, 50] {
        let mut ctx = field("hello", caret, caret);
        let mut state = engine(&mut ctx);
        state.delete(&mut ctx);
        assert_eq!(ctx.text.to_string(), "hello");
        assert_eq!(ctx.selection, TextSelection::new(caret, caret));
        assert!(!state.is_self_update());
    }
    let mut ctx = field("", 0, 0);
    let mut state = engine(&mut ctx);
    state.delete(&mut ctx);
    assert!(ctx.text.is_empty());
    assert!(!state.is_self_update());
}

#[test]
fn delete_removes_the_unit_at_the_caret() {
    let mut ctx = field("hello", 1, 1);
    ctx.caret.scroll = 15;
    let mut state = engine(&mut ctx);
    state.delete(&mut ctx);
    assert_eq!(ctx.text.to_string(), "hllo");
    assert_eq!(ctx.selection, TextSelection::new(1, 1));
    assert_eq!(ctx.caret.scroll, 15);
    assert!(state.is_self_update());
}

#[test]
fn delete_deletes_a_selection_instead_of_a_unit() {
    let mut ctx = field("hello", 4, 2);
    let mut state = engine(&mut ctx);
    state.delete(&mut ctx);
    assert_eq!(ctx.text.to_string(), "heo");
    assert_eq!(ctx.selection, TextSelection::new(2, 2));
}

#[test]
fn copy_puts_the_selected_text_on_the_clipboard() {
    let mut ctx = field("hello world", 9, 6);
    let state = engine(&mut ctx);
    let mut clipboard = Clipboard::new();
    state.copy(&mut clipboard, &ctx);
    assert_eq!(clipboard.get(), Some("wor".to_string()));
    assert_eq!(ctx.text.to_string(), "hello world");
    assert_eq!(ctx.selection, TextSelection::new(9, 6));
}

#[test]
fn copy_without_a_selection_keeps_the_clipboard() {
    let mut ctx = field("hello", 2, 2);
    let state = engine(&mut ctx);
    let mut clipboard = Clipboard::new();
    state.copy(&mut clipboard, &ctx);
    assert_eq!(clipboard.get(), None);
    clipboard.set("kept".to_string());
    state.copy(&mut clipboard, &ctx);
    assert_eq!(clipboard.get(), Some("kept".to_string()));
    // a selection that leaves the text is not copied either
    ctx.selection = TextSelection::new(2, 9);
    state.copy(&mut clipboard, &ctx);
    assert_eq!(clipboard.get(), Some("kept".to_string()));
}

#[test]
fn cut_copies_and_deletes() {
    let mut ctx = field("hello world", 0, 6);
    let mut state = engine(&mut ctx);
    let mut clipboard = Clipboard::new();
    state.cut(&mut clipboard, &mut ctx);
    assert_eq!(clipboard.get(), Some("hello ".to_string()));
    assert_eq!(ctx.text.to_string(), "world");
    assert_eq!(ctx.selection, TextSelection::new(0, 0));
}

#[test]
fn paste_inserts_the_clipboard() {
    let mut ctx = field("hello", 5, 5);
    let mut state = engine(&mut ctx);
    let mut clipboard = Clipboard::new();
    state.paste(&clipboard, &mut ctx);
    assert_eq!(ctx.text.to_string(), "hello");
    assert!(!state.is_self_update());
    clipboard.set(" world".to_string());
    state.paste(&clipboard, &mut ctx);
    assert_eq!(ctx.text.to_string(), "hello world");
    assert_eq!(ctx.selection, TextSelection::new(11, 11));
    assert_eq!(clipboard.get(), Some(" world".to_string()));
}

#[test]
fn cut_then_paste_restores_the_text() {
    for (text, start, end) in [
        ("hello world", 2, 5),
        ("hello world", 5, 2),
        ("hello world", 0, 11),
        ("a\u{1F600}b", 1, 3),
        ("x", 0, 1),
    ] {
        let mut ctx = field(text, start, end);
        let mut state = engine(&mut ctx);
        let mut clipboard = Clipboard::new();
        clipboard.set("old".to_string());
        state.cut(&mut clipboard, &mut ctx);
        assert_ne!(ctx.text.to_string(), text);
        state.paste(&clipboard, &mut ctx);
        assert_eq!(ctx.text.to_string(), text);
        let hi = start.max(end);
        assert_eq!(ctx.selection, TextSelection::new(hi, hi));
    }
}

#[test]
fn cut_then_paste_of_half_a_surrogate_pair_does_not_restore() {
    let mut ctx = field("a\u{1F600}b", 1, 2);
    let mut state = engine(&mut ctx);
    let mut clipboard = Clipboard::new();
    state.cut(&mut clipboard, &mut ctx);
    assert_eq!(clipboard.get(), Some("\u{FFFD}".to_string()));
    state.paste(&clipboard, &mut ctx);
    assert_eq!(ctx.text.as_units(), &vec![0x61, 0xFFFD, 0xDE00, 0x62]);
}

#[test]
fn select_all_selects_everything() {
    let mut ctx = field("hello", 2, 2);
    let state = engine(&mut ctx);
    state.select_all(&mut ctx);
    assert_eq!(ctx.selection, TextSelection::new(0, 5));
}

#[test]
fn select_all_on_an_empty_or_unfocused_field_is_a_noop() {
    let mut ctx = field("", 0, 0);
    let state = engine(&mut ctx);
    state.select_all(&mut ctx);
    assert_eq!(ctx.selection, TextSelection::new(0, 0));

    let mut ctx = field("hello", 2, 3);
    ctx.focused = false;
    let state = engine(&mut ctx);
    state.select_all(&mut ctx);
    assert_eq!(ctx.selection, TextSelection::new(2, 3));
    assert!(ctx.events.is_empty());
}

#[test]
fn expand_selection_moves_only_the_moving_edge() {
    let mut ctx = field("hello", 2, 2);
    let mut state = engine(&mut ctx);
    state.expand_selection_left(&mut ctx);
    assert_eq!(ctx.selection, TextSelection::new(1, 2));
    assert_eq!(state.direction(), Direction::Left);
    state.expand_selection_left(&mut ctx);
    state.expand_selection_left(&mut ctx);
    assert_eq!(ctx.selection, TextSelection::new(0, 2));
    state.expand_selection_right(&mut ctx);
    assert_eq!(ctx.selection, TextSelection::new(1, 2));
    assert_eq!(state.direction(), Direction::Right);
    for _ in 0..10 {
        state.expand_selection_right(&mut ctx);
    }
    assert_eq!(ctx.selection, TextSelection::new(5, 2));
}

#[test]
fn move_selection_collapses_before_it_steps() {
    let mut ctx = field("hello", 1, 4);
    let mut state = engine(&mut ctx);
    state.move_selection_right(&mut ctx);
    assert_eq!(ctx.selection, TextSelection::new(4, 4));
    assert_eq!(state.direction(), Direction::Right);
    state.move_selection_right(&mut ctx);
    assert_eq!(ctx.selection, TextSelection::new(5, 5));
    state.move_selection_right(&mut ctx);
    assert_eq!(ctx.selection, TextSelection::new(5, 5));

    ctx.selection = TextSelection::new(4, 1);
    state.move_selection_left(&mut ctx);
    assert_eq!(ctx.selection, TextSelection::new(1, 1));
    assert_eq!(state.direction(), Direction::Left);
    state.move_selection_left(&mut ctx);
    state.move_selection_left(&mut ctx);
    assert_eq!(ctx.selection, TextSelection::new(0, 0));
}

#[test]
fn collapse_selection_keeps_the_text() {
    let mut ctx = field("hello", 4, 1);
    let state = engine(&mut ctx);
    state.collapse_selection(&mut ctx);
    assert_eq!(ctx.selection, TextSelection::new(1, 1));
    assert_eq!(ctx.text.to_string(), "hello");
    ctx.selection = TextSelection::new(1, 3);
    state.collapse_selection(&mut ctx);
    assert_eq!(ctx.selection, TextSelection::new(3, 3));
    state.collapse_selection(&mut ctx);
    assert_eq!(ctx.selection, TextSelection::new(3, 3));
    assert_eq!(ctx.text.to_string(), "hello");
    assert!(ctx.events.is_empty());
}

#[test]
fn adjust_selection_clamps_only_what_leaves_the_text() {
    let mut ctx = field("hello", 2, 5);
    let state = engine(&mut ctx);
    state.adjust_selection(&mut ctx);
    assert_eq!(ctx.selection, TextSelection::new(2, 5));
    assert!(ctx.events.is_empty());

    // one edge beyond the text is enough
    ctx.selection = TextSelection::new(2, 6);
    ctx.visual_state = VisualState::Default;
    state.adjust_selection(&mut ctx);
    assert_eq!(ctx.selection, TextSelection::new(5, 5));
    assert_eq!(ctx.visual_state, VisualState::Focused);
    assert_eq!(ctx.events, vec![HostEvent::Refresh(Entity(7))]);

    ctx.events.clear();
    ctx.focused = false;
    ctx.visual_state = VisualState::Default;
    ctx.selection = TextSelection::new(8, 1);
    state.adjust_selection(&mut ctx);
    assert_eq!(ctx.selection, TextSelection::new(5, 5));
    assert_eq!(ctx.visual_state, VisualState::Default);
    assert!(ctx.events.is_empty());
}

#[test]
fn force_update_skips_a_change_of_its_own() {
    let mut ctx = field("hello", 1, 1);
    let mut state = engine(&mut ctx);
    state.insert_text("x".to_string(), &mut ctx);
    assert!(state.is_self_update());
    ctx.selection = TextSelection::new(40, 40);
    state.force_update(&mut ctx);
    assert!(!state.is_self_update());
    assert_eq!(ctx.selection, TextSelection::new(40, 40));
    assert_eq!(ctx.visual_state, VisualState::Focused);
    // the next one does the work
    state.force_update(&mut ctx);
    assert_eq!(ctx.selection, TextSelection::new(6, 6));
    assert_eq!(ctx.visual_state, VisualState::Default);
}

#[test]
fn force_update_twice_does_the_work_once() {
    let mut ctx = field("hello", 9, 2);
    ctx.caret.scroll = 12;
    let mut state = engine(&mut ctx);
    state.force_update(&mut ctx);
    assert_eq!(ctx.selection, TextSelection::new(5, 5));
    assert_eq!(ctx.visual_state, VisualState::Default);
    assert_eq!(ctx.caret.scroll, 12);
    assert_eq!(ctx.events, vec![HostEvent::Refresh(Entity(7))]);

    state.force_update(&mut ctx);
    assert_eq!(ctx.selection, TextSelection::new(5, 5));
    assert_eq!(ctx.visual_state, VisualState::Default);
    assert_eq!(ctx.caret.scroll, 12);
    assert_eq!(ctx.events, vec![HostEvent::Refresh(Entity(7))]);
    assert!(!state.is_self_update());
}

#[test]
fn force_update_on_an_empty_buffer_resets_the_scroll() {
    let mut ctx = field("", 3, 3);
    ctx.focused = false;
    ctx.visual_state = VisualState::Default;
    ctx.caret.scroll = 44;
    let mut state = engine(&mut ctx);
    state.force_update(&mut ctx);
    assert_eq!(ctx.selection, TextSelection::new(0, 0));
    assert_eq!(ctx.caret.offset(), 0);
    assert_eq!(ctx.visual_state, VisualState::Empty);
    assert!(ctx.events.is_empty());
}

#[test]
fn focus_gained_shows_the_caret() {
    let mut ctx = field("hello", 9, 9);
    ctx.caret.visible = false;
    ctx.visual_state = VisualState::Default;
    let state = {
        let mut state = TextBehaviorState::new();
        state.init(&mut ctx);
        ctx.events.clear();
        state
    };
    state.focused_changed(&mut ctx);
    assert!(ctx.caret.visible);
    assert_eq!(ctx.selection, TextSelection::new(5, 5));
    assert_eq!(ctx.visual_state, VisualState::Focused);
    assert_eq!(ctx.events, vec![HostEvent::Refresh(Entity(7)), HostEvent::Refresh(Entity(7))]);
}

#[test]
fn focus_gained_can_select_all() {
    let mut ctx = field("hello", 2, 2);
    ctx.select_all_on_focus = true;
    let state = engine(&mut ctx);
    state.focused_changed(&mut ctx);
    assert_eq!(ctx.selection, TextSelection::new(0, 5));
    assert_eq!(ctx.visual_state, VisualState::Focused);

    let mut ctx = field("", 0, 0);
    ctx.select_all_on_focus = true;
    let state = engine(&mut ctx);
    state.focused_changed(&mut ctx);
    assert_eq!(ctx.selection, TextSelection::new(0, 0));
    assert_eq!(ctx.visual_state, VisualState::EmptyFocused);
}

#[test]
fn focus_lost_hides_the_caret() {
    let mut ctx = field("hello", 2, 4);
    ctx.focused = false;
    let state = engine(&mut ctx);
    state.focused_changed(&mut ctx);
    assert!(!ctx.caret.visible);
    assert_eq!(ctx.selection, TextSelection::new(2, 4));
    assert_eq!(ctx.visual_state, VisualState::Default);
    assert_eq!(ctx.events, vec![HostEvent::Refresh(Entity(7))]);

    let mut ctx = field("", 0, 0);
    ctx.focused = false;
    let state = engine(&mut ctx);
    state.focused_changed(&mut ctx);
    assert_eq!(ctx.visual_state, VisualState::Empty);
}

#[test]
fn init_binds_hides_and_marks_empty() {
    let mut ctx = Context::new(FixedWidthMeasurer::new(10, 8));
    ctx.target = Entity(3);
    ctx.caret.visible = true;
    let mut state = TextBehaviorState::new();
    assert_eq!(state.target(), Entity(0));
    state.init(&mut ctx);
    assert_eq!(state.target(), Entity(3));
    assert!(!ctx.caret.visible);
    assert_eq!(ctx.visual_state, VisualState::Empty);
    assert_eq!(ctx.events, vec![HostEvent::Refresh(Entity(3))]);

    let mut ctx = Context::new(FixedWidthMeasurer::new(10, 8));
    ctx.text = TextBuffer::from_str("x");
    let mut state = TextBehaviorState::default();
    state.init(&mut ctx);
    assert_eq!(ctx.visual_state, VisualState::Default);
    assert!(ctx.events.is_empty());
}

#[test]
fn activate_notifies_the_host() {
    let mut ctx = field("hello", 0, 0);
    let state = engine(&mut ctx);
    state.activate(&mut ctx);
    assert_eq!(ctx.events, vec![HostEvent::RemoveFocus(Entity(7)), HostEvent::Activate(Entity(7))]);
    ctx.events.clear();
    ctx.lose_focus_on_activation = false;
    state.activate(&mut ctx);
    assert_eq!(ctx.events, vec![HostEvent::Activate(Entity(7))]);
    assert_eq!(ctx.take_events(), vec![HostEvent::Activate(Entity(7))]);
    assert!(ctx.events.is_empty());
}

#[test]
fn dropped_text_is_inserted_inside_the_hit_area_only() {
    let mut ctx = field("ab", 1, 1);
    ctx.bounds = Rectangle::new(10, 10, 100, 20);
    let mut state = engine(&mut ctx);
    let mut clipboard = Clipboard::new();

    state.action(TextAction::Drop("X".to_string(), Point::new(9, 15)));
    state.update(&mut clipboard, &mut ctx);
    assert_eq!(ctx.text.to_string(), "ab");

    state.action(TextAction::Drop("X".to_string(), Point::new(110, 15)));
    state.update(&mut clipboard, &mut ctx);
    assert_eq!(ctx.text.to_string(), "ab");

    state.action(TextAction::Drop("X".to_string(), Point::new(10, 29)));
    state.update(&mut clipboard, &mut ctx);
    assert_eq!(ctx.text.to_string(), "aXb");
    assert_eq!(ctx.selection, TextSelection::new(2, 2));

    ctx.drop_policy = DropPolicy::Ignore;
    state.action(TextAction::Drop("Y".to_string(), Point::new(50, 15)));
    state.update(&mut clipboard, &mut ctx);
    assert_eq!(ctx.text.to_string(), "aXb");
}

#[test]
fn replace_text_resets_the_selection() {
    let mut ctx = field("hello", 2, 4);
    ctx.replace_text("bye");
    assert_eq!(ctx.text.to_string(), "bye");
    ctx.replace_text("h\u{e9}\u{1F600}");
    assert_eq!(ctx.text.to_string(), "h\u{e9}\u{1F600}");
    ctx.replace_text("bye");
    assert_eq!(ctx.selection, TextSelection::new(0, 0));
    assert!(ctx.focused);
}

#[test]
fn new_context_has_the_documented_defaults() {
    let ctx = Context::new(FixedWidthMeasurer::new(10, 8));
    assert!(ctx.text.is_empty());
    assert_eq!(ctx.selection, TextSelection::new(0, 0));
    assert!(!ctx.focused);
    assert_eq!(ctx.font, "Roboto-Regular");
    assert_eq!(ctx.font_size, 12);
    assert!(ctx.lose_focus_on_activation);
    assert!(!ctx.select_all_on_focus);
    assert_eq!(ctx.visual_state, VisualState::Default);
    assert_eq!(ctx.drop_policy, DropPolicy::Insert);
    assert_eq!(ctx.caret.offset(), 0);
    assert!(!ctx.caret.visible);
    assert!(ctx.events.is_empty());
}

#[test]
fn visual_state_names() {
    assert_eq!(VisualState::Default.name(), None);
    assert_eq!(VisualState::Empty.name(), Some("empty"));
    assert_eq!(VisualState::Focused.name(), Some("focused"));
    assert_eq!(VisualState::EmptyFocused.name(), Some("empty_focused"));
}

#[test]
fn set_text_marks_the_write_as_the_engines_own() {
    let mut ctx = field("hello", 1, 1);
    let mut state = engine(&mut ctx);
    state.set_text(&mut ctx, TextBuffer::from_str("bye"));
    assert_eq!(ctx.text.to_string(), "bye");
    assert!(state.is_self_update());
    assert_eq!(ctx.selection, TextSelection::new(1, 1));
}

#[test]
fn request_focus_and_focused_state() {
    let mut ctx = field("hello", 1, 1);
    let state = engine(&mut ctx);
    state.request_focus(&mut ctx);
    assert_eq!(ctx.events, vec![HostEvent::RequestFocus(Entity(7))]);
    ctx.events.clear();
    ctx.visual_state = VisualState::Default;
    state.update_focused_state(&mut ctx);
    assert_eq!(ctx.visual_state, VisualState::Focused);
    ctx.text = TextBuffer::new();
    state.update_focused_state(&mut ctx);
    assert_eq!(ctx.visual_state, VisualState::EmptyFocused);
    assert_eq!(ctx.events, vec![HostEvent::Refresh(Entity(7)), HostEvent::Refresh(Entity(7))]);
}

#[test]
fn apply_handles_an_action_without_the_queue() {
    let mut ctx = field("hello", 5, 5);
    let mut state = engine(&mut ctx);
    let mut clipboard = Clipboard::new();
    state.action(TextAction::MouseUp);
    state.apply(&mut clipboard, &mut ctx, TextAction::Drop("!".to_string(), Point::new(0, 0)));
    // the hit area is empty: nothing is dropped
    assert_eq!(ctx.text.to_string(), "hello");
    ctx.bounds = Rectangle::new(0, 0, 10, 10);
    state.apply(&mut clipboard, &mut ctx, TextAction::Drop("!".to_string(), Point::new(0, 0)));
    assert_eq!(ctx.text.to_string(), "hello!");
    assert_eq!(state.pending(), 1);
    // applying directly sets no mark for the post-layout tick
    assert!(!state.needs_visual_update());
}
