use voice_editor::easy_mark_editor::{
    file_label, DictateButton, FileError, OpenOutcome, QuitCheck, RecordingPhase, SavePrompt, TextEditor,
};
use voice_editor::markup::{CursorRange, ShortcutKey};
use voice_editor::recorder::GuiOrders;
use voice_editor::stter::DecodedSpeech;

#[test]
fn new_editor_is_empty_and_unsaved() {
    let e = TextEditor::new();
    assert_eq!(e.code(), "");
    assert!(e.show_rendered());
    assert!(!e.is_exiting());
    assert_eq!(e.title(), None);
    assert_eq!(e.save_target(false), None);
    assert_eq!(e.quit(), QuitCheck::AskToSave);
    assert_eq!(e.dictate_button(), DictateButton::Dictate);
    assert_eq!(e.recording_phase(), RecordingPhase::Idle);
    assert!(e.text_editable());
}

#[test]
fn dictation_appends_final_text() {
    let mut e = TextEditor::new();
    e.user_edit(String::from("Dear "));
    assert_eq!(e.dictate_clicked(), Some(GuiOrders::Record));
    assert_eq!(e.dictate_button(), DictateButton::Stop);
    assert_eq!(e.recording_phase(), RecordingPhase::Recording);
    assert!(!e.text_editable());
    e.manage_recording(DecodedSpeech::Intermediate(String::from("sir")));
    assert_eq!(e.code(), "Dear sir...");
    e.manage_recording(DecodedSpeech::Intermediate(String::from("sir or")));
    assert_eq!(e.code(), "Dear sir or...");
    assert_eq!(e.quit(), QuitCheck::Refuse);
    assert_eq!(e.dictate_clicked(), Some(GuiOrders::Stop));
    assert_eq!(e.dictate_button(), DictateButton::Spinner);
    assert_eq!(e.recording_phase(), RecordingPhase::Stopping);
    assert_eq!(e.dictate_clicked(), None);
    e.end_recording(DecodedSpeech::Intermediate(String::from("sir or madam")));
    assert_eq!(e.code(), "Dear sir or madam...");
    e.end_recording(DecodedSpeech::Final(String::from("sir or madam")));
    assert_eq!(e.code(), "Dear sir or madam");
    assert_eq!(e.dictate_button(), DictateButton::Dictate);
    assert_eq!(e.recording_phase(), RecordingPhase::Idle);
    assert!(e.text_editable());
}

#[test]
fn start_recording_orders_record() {
    let mut e = TextEditor::new();
    assert_eq!(e.start_recording(), GuiOrders::Record);
    assert_eq!(e.recording_phase(), RecordingPhase::Recording);
}

#[test]
fn quitting_with_nothing_unsaved_is_allowed() {
    let mut e = TextEditor::new();
    assert_eq!(e.finish_save(String::from("a.md"), true), Ok(()));
    assert_eq!(e.quit(), QuitCheck::Allow);
}

#[test]
fn exit_request_and_decision() {
    let mut e = TextEditor::new();
    assert!(!e.on_exit_event());
    assert!(e.is_exiting());
    // Unsaved changes and no answer: the editor stays open.
    assert_eq!(e.finish_exit(None), None);
    assert!(!e.is_exiting());
    assert!(!e.on_exit_event());
    assert_eq!(e.finish_exit(Some(SavePrompt::SaveFailed)), None);
    assert!(!e.on_exit_event());
    assert_eq!(e.finish_exit(Some(SavePrompt::Declined)), Some(GuiOrders::Exit));
    assert!(e.on_exit_event());
}

#[test]
fn exit_after_saving() {
    let mut e = TextEditor::new();
    assert_eq!(e.finish_save(String::from("f.md"), true), Ok(()));
    assert!(!e.on_exit_event());
    assert_eq!(e.finish_exit(None), Some(GuiOrders::Exit));
    assert!(e.on_exit_event());
}

#[test]
fn no_exit_during_dictation() {
    let mut e = TextEditor::new();
    assert_eq!(e.finish_save(String::from("f.md"), true), Ok(()));
    assert_eq!(e.dictate_clicked(), Some(GuiOrders::Record));
    assert!(!e.on_exit_event());
    assert_eq!(e.finish_exit(Some(SavePrompt::Declined)), None);
    assert_eq!(e.dictate_clicked(), Some(GuiOrders::Stop));
    assert_eq!(e.finish_exit(Some(SavePrompt::Saved)), None);
    e.end_recording(DecodedSpeech::Final(String::new()));
    assert_eq!(e.finish_exit(None), Some(GuiOrders::Exit));
}

#[test]
fn dictated_text_is_unsaved() {
    let mut e = TextEditor::new();
    assert_eq!(e.finish_save(String::from("d.md"), true), Ok(()));
    assert_eq!(e.title(), Some(String::from("d.md")));
    assert_eq!(e.dictate_clicked(), Some(GuiOrders::Record));
    assert_eq!(e.dictate_clicked(), Some(GuiOrders::Stop));
    e.end_recording(DecodedSpeech::Final(String::from("hello")));
    assert_eq!(e.code(), "hello");
    assert_eq!(e.title(), Some(String::from("d.md*")));
    assert_eq!(e.quit(), QuitCheck::AskToSave);
}

#[test]
fn empty_dictation_changes_nothing() {
    let mut e = TextEditor::new();
    e.user_edit(String::from("abc"));
    assert_eq!(e.finish_save(String::from("d.md"), true), Ok(()));
    assert_eq!(e.dictate_clicked(), Some(GuiOrders::Record));
    assert_eq!(e.dictate_clicked(), Some(GuiOrders::Stop));
    e.end_recording(DecodedSpeech::Final(String::new()));
    assert_eq!(e.code(), "abc");
    assert_eq!(e.quit(), QuitCheck::Allow);
}

#[test]
fn intermediate_result_is_not_an_unsaved_change() {
    let mut e = TextEditor::new();
    assert_eq!(e.finish_save(String::from("d.md"), true), Ok(()));
    e.start_recording();
    e.manage_recording(DecodedSpeech::Intermediate(String::from("hi")));
    assert_eq!(e.code(), "hi...");
    assert_eq!(e.title(), Some(String::from("d.md")));
}

#[test]
fn dictation_with_empty_final_result_leaves_text_saved() {
    let mut e = TextEditor::new();
    e.user_edit(String::from("abc"));
    assert_eq!(e.finish_save(String::from("d.md"), true), Ok(()));
    assert_eq!(e.dictate_clicked(), Some(GuiOrders::Record));
    e.manage_recording(DecodedSpeech::Intermediate(String::from("x")));
    assert_eq!(e.dictate_clicked(), Some(GuiOrders::Stop));
    e.end_recording(DecodedSpeech::Intermediate(String::from("xy")));
    e.end_recording(DecodedSpeech::Final(String::new()));
    assert_eq!(e.code(), "abc");
    assert_eq!(e.title(), Some(String::from("d.md")));
    assert_eq!(e.quit(), QuitCheck::Allow);
}

#[test]
fn save_and_open_set_the_file() {
    let mut e = TextEditor::new();
    assert_eq!(e.finish_save(String::from("notes/todo.md"), false), Err(FileError::Write));
    assert_eq!(e.save_target(false), None);
    assert_eq!(e.finish_save(String::from("notes/todo.md"), true), Ok(()));
    assert_eq!(e.save_target(false), Some(String::from("notes/todo.md")));
    assert_eq!(e.save_target(true), None);
    assert_eq!(e.title(), Some(String::from("todo.md")));
    e.user_edit(String::from("x"));
    assert_eq!(e.title(), Some(String::from("todo.md*")));

    assert_eq!(e.finish_open(String::from("other.md"), OpenOutcome::NotOpened), Err(FileError::Open));
    assert_eq!(e.code(), "x");
    assert_eq!(
        e.finish_open(String::from("other.md"), OpenOutcome::ReadFailed(String::new())),
        Err(FileError::Read)
    );
    assert_eq!(e.code(), "");
    assert_eq!(e.save_target(false), Some(String::from("notes/todo.md")));
    assert_eq!(
        e.finish_open(String::from("/home/u/other.md"), OpenOutcome::Read(String::from("# Title"))),
        Ok(())
    );
    assert_eq!(e.code(), "# Title");
    assert_eq!(e.title(), Some(String::from("other.md")));
    assert_eq!(e.save_target(false), Some(String::from("/home/u/other.md")));
}

#[test]
fn path_without_file_name_has_no_title() {
    let mut e = TextEditor::new();
    assert_eq!(e.finish_save(String::from("dir/.."), true), Ok(()));
    assert_eq!(e.title(), None);
}

#[test]
fn shortcuts_mark_the_text_unsaved() {
    let mut e = TextEditor::new();
    e.user_edit(String::from("word"));
    assert_eq!(e.finish_save(String::from("w.md"), true), Ok(()));
    let mut r = CursorRange { primary: 0, secondary: 4 };
    assert!(e.apply_shortcuts(&mut r, &vec![ShortcutKey::U]));
    assert_eq!(e.code(), "_word_");
    assert_eq!(e.title(), Some(String::from("w.md*")));
    assert_eq!(r, CursorRange { primary: 1, secondary: 5 });
}

#[test]
fn shortcuts_that_cancel_out_leave_the_text_saved() {
    let mut e = TextEditor::new();
    e.user_edit(String::from("word"));
    assert_eq!(e.finish_save(String::from("w.md"), true), Ok(()));
    let mut r = CursorRange { primary: 0, secondary: 4 };
    assert!(e.apply_shortcuts(&mut r, &vec![ShortcutKey::B, ShortcutKey::B]));
    assert_eq!(e.code(), "word");
    assert_eq!(e.title(), Some(String::from("w.md")));
}

#[test]
fn shortcuts_do_nothing_during_dictation() {
    let mut e = TextEditor::new();
    e.user_edit(String::from("word"));
    e.start_recording();
    let mut r = CursorRange { primary: 0, secondary: 4 };
    assert!(!e.apply_shortcuts(&mut r, &vec![ShortcutKey::B]));
    assert_eq!(e.code(), "word");
    assert_eq!(r, CursorRange { primary: 0, secondary: 4 });
}

#[test]
fn show_rendered_toggle() {
    let mut e = TextEditor::new();
    e.set_show_rendered(false);
    assert!(!e.show_rendered());
}

#[test]
fn editors_compare_by_text_and_rendering() {
    let mut a = TextEditor::new();
    let mut b = TextEditor::new();
    assert!(a == b);
    a.user_edit(String::from("x"));
    assert!(a != b);
    b.user_edit(String::from("x"));
    assert_eq!(b.finish_save(String::from("f"), true), Ok(()));
    assert!(a == b);
    b.set_show_rendered(false);
    assert!(a != b);
}

#[test]
fn file_label_marks_unsaved_changes() {
    assert_eq!(file_label(Some(String::from("a.md")), true), Some(String::from("a.md*")));
    assert_eq!(file_label(Some(String::from("a.md")), false), Some(String::from("a.md")));
    assert_eq!(file_label(None, true), None);
}
