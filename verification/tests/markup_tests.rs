use voice_editor::markup::{shortcut_keys, shortcuts, surrounding_of, toggle_surrounding, CursorRange, ShortcutKey};

fn range(primary: usize, secondary: usize) -> CursorRange {
    CursorRange { primary, secondary }
}

#[test]
fn toggle_adds_markers_around_selection() {
    let mut code = String::from("hello world");
    let mut r = range(5, 0);
    toggle_surrounding(&mut code, &mut r, "*");
    assert_eq!(code, "*hello* world");
    assert_eq!(r, range(6, 1));
}

#[test]
fn toggle_removes_markers_that_surround_selection() {
    let mut code = String::from("a *bold* word");
    let mut r = range(3, 7);
    toggle_surrounding(&mut code, &mut r, "*");
    assert_eq!(code, "a bold word");
    assert_eq!(r, range(2, 6));
}

#[test]
fn toggle_twice_gives_back_text_and_selection() {
    let original = String::from("some text here");
    let mut code = original.clone();
    let mut r = range(5, 9);
    toggle_surrounding(&mut code, &mut r, "~");
    assert_eq!(code, "some ~text~ here");
    toggle_surrounding(&mut code, &mut r, "~");
    assert_eq!(code, original);
    assert_eq!(r, range(5, 9));
}

#[test]
fn toggle_keeps_the_selected_characters() {
    let mut code = String::from("xyz");
    let mut r = range(1, 2);
    toggle_surrounding(&mut code, &mut r, "_");
    let chars: Vec<char> = code.chars().collect();
    let selected: String = chars[r.primary..r.secondary].iter().collect();
    assert_eq!(selected, "y");
}

#[test]
fn toggle_on_empty_selection_inserts_pair() {
    let mut code = String::from("ab");
    let mut r = range(1, 1);
    toggle_surrounding(&mut code, &mut r, "`");
    assert_eq!(code, "a``b");
    assert_eq!(r, range(2, 2));
}

#[test]
fn toggle_removes_one_layer_of_doubled_markers() {
    let mut code = String::from("**x**");
    let mut r = range(2, 3);
    toggle_surrounding(&mut code, &mut r, "*");
    assert_eq!(code, "*x*");
    assert_eq!(r, range(1, 2));
}

#[test]
fn toggle_with_multi_char_markers_and_unicode_text() {
    let mut code = String::from("żółw");
    let mut r = range(0, 4);
    toggle_surrounding(&mut code, &mut r, "**");
    assert_eq!(code, "**żółw**");
    assert_eq!(r, range(2, 6));
    toggle_surrounding(&mut code, &mut r, "**");
    assert_eq!(code, "żółw");
    assert_eq!(r, range(0, 4));
}

#[test]
fn toggle_with_cursor_past_end_inserts_at_end() {
    let mut code = String::from("ab");
    let mut r = range(5, 7);
    toggle_surrounding(&mut code, &mut r, "*");
    assert_eq!(code, "ab**");
    assert_eq!(r, range(6, 8));
}

#[test]
fn toggle_with_empty_markers_changes_nothing() {
    let mut code = String::from("abc");
    let mut r = range(1, 2);
    toggle_surrounding(&mut code, &mut r, "");
    assert_eq!(code, "abc");
    assert_eq!(r, range(1, 2));
}

#[test]
fn only_prefix_marker_is_not_surrounded() {
    let mut code = String::from("*ab");
    let mut r = range(1, 3);
    toggle_surrounding(&mut code, &mut r, "*");
    assert_eq!(code, "**ab*");
    assert_eq!(r, range(2, 4));
}

#[test]
fn shortcut_markers() {
    assert_eq!(surrounding_of(ShortcutKey::B), "*");
    assert_eq!(surrounding_of(ShortcutKey::D), "`");
    assert_eq!(surrounding_of(ShortcutKey::I), "/");
    assert_eq!(surrounding_of(ShortcutKey::L), "$");
    assert_eq!(surrounding_of(ShortcutKey::R), "^");
    assert_eq!(surrounding_of(ShortcutKey::S), "~");
    assert_eq!(surrounding_of(ShortcutKey::U), "_");
}

#[test]
fn shortcut_key_order() {
    assert_eq!(
        shortcut_keys(),
        vec![
            ShortcutKey::B,
            ShortcutKey::D,
            ShortcutKey::I,
            ShortcutKey::L,
            ShortcutKey::R,
            ShortcutKey::S,
            ShortcutKey::U
        ]
    );
}

#[test]
fn shortcuts_apply_in_order() {
    let mut code = String::from("x");
    let mut r = range(0, 1);
    let changed = shortcuts(&mut code, &mut r, &vec![ShortcutKey::B, ShortcutKey::I]);
    assert!(changed);
    assert_eq!(code, "*/x/*");
    assert_eq!(r, range(2, 3));
}

#[test]
fn no_shortcut_pressed_changes_nothing() {
    let mut code = String::from("x");
    let mut r = range(0, 1);
    let changed = shortcuts(&mut code, &mut r, &vec![]);
    assert!(!changed);
    assert_eq!(code, "x");
    assert_eq!(r, range(0, 1));
}

#[test]
fn sorted_puts_start_first() {
    assert_eq!(range(7, 3).sorted(), (3, 7));
    assert_eq!(range(2, 4).sorted(), (2, 4));
}

#[test]
fn same_shortcut_twice_restores() {
    let mut code = String::from("plain words");
    let mut r = range(6, 11);
    assert!(shortcuts(&mut code, &mut r, &vec![ShortcutKey::L, ShortcutKey::L]));
    assert_eq!(code, "plain words");
    assert_eq!(r, range(6, 11));
}
