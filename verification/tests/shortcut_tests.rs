use screen_capture::shortcut::ShortcutEditor;

#[test]
fn saving_keeps_the_last_key_pressed() {
    let mut e = ShortcutEditor::new('a');
    e.record('b');
    assert_eq!(e.pending(), 'a');
    e.open();
    assert!(e.is_open());
    e.record('b');
    e.record('c');
    assert_eq!(e.pending(), 'c');
    assert_eq!(e.shortcut(), 'a');
    e.save();
    assert_eq!(e.shortcut(), 'c');
    assert!(!e.is_open());
}

#[test]
fn closing_keeps_the_shortcut() {
    let mut e = ShortcutEditor::new('a');
    e.open();
    e.record('z');
    e.close();
    assert_eq!(e.shortcut(), 'a');
    assert!(!e.is_open());
}
