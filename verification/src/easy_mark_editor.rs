//! The editor: its text, the file it belongs to, and the state machine that
//! drives dictation, saving and quitting. The window, the dialogs and the
//! files themselves are handled outside; they report here what happened,
//! and the editor answers with what to do next.

use crate::markup::{apply_toggles, shortcuts, CursorRange, ShortcutKey};
use crate::paths::{path_file_name, path_file_name_of};
use crate::recorder::GuiOrders;
use crate::stter::DecodedSpeech;
use vstd::prelude::*;

verus! {

/// The editor's state, as plain values.
pub struct EditorState {
    /// The text being edited.
    pub code: Seq<char>,
    /// Whether the rendered text is shown beside the source.
    pub show_rendered: bool,
    /// The file that the text was opened from or last saved to.
    pub file_path: Option<Seq<char>>,
    /// Whether there are changes that have not been saved.
    pub has_changed: bool,
    /// Whether the editor has agreed to close the window.
    pub should_exit: bool,
    /// Whether the user has asked to close the window and the answer is pending.
    pub is_exiting: bool,
    /// Whether a dictation is going on, from its start until its final result arrives.
    pub is_recording: bool,
    /// Whether the user has stopped the dictation and its final result is awaited.
    pub is_stopping: bool,
    /// The text as it was when the dictation started; decoded speech is put after it.
    pub backup_code: Seq<char>,
}

impl EditorState {
    /// The editor only waits for the end of a dictation that is going on.
    pub open spec fn wf(self) -> bool {
        self.is_stopping ==> self.is_recording
    }
}

/// A text editor with voice dictation.
pub struct TextEditor {
    code: String,
    show_rendered: bool,
    file_path: Option<String>,
    has_changed: bool,
    // Quit only when sure we want to quit.
    should_exit: bool,
    is_exiting: bool,
    // Coordinating waiting for decoded speech.
    is_recording: bool,
    is_stopping: bool,
    // Keep that when receiving intermediate results.
    backup_code: String,
}

impl View for TextEditor {
    type V = EditorState;

    closed spec fn view(&self) -> EditorState {
        EditorState {
            code: self.code@,
            show_rendered: self.show_rendered,
            file_path: match self.file_path {
                Some(p) => Some(p@),
                None => None,
            },
            has_changed: self.has_changed,
            should_exit: self.should_exit,
            is_exiting: self.is_exiting,
            is_recording: self.is_recording,
            is_stopping: self.is_stopping,
            backup_code: self.backup_code@,
        }
    }
}

/// What the dictation button shows.
#[derive(Clone, Copy, Debug, PartialEq, Eq, Structural)]
pub enum DictateButton {
    /// "Dictate": no dictation is going on.
    Dictate,
    /// "Stop": a dictation is going on.
    Stop,
    /// A spinner in place of a button: the final result is awaited.
    Spinner,
}

/// Which speech the editor is waiting for.
#[derive(Clone, Copy, Debug, PartialEq, Eq, Structural)]
pub enum RecordingPhase {
    /// None: no dictation is going on.
    Idle,
    /// Intermediate results, while the user speaks.
    Recording,
    /// Intermediate results and then the final one, after the user stopped.
    Stopping,
}

/// Whether the editor may close, before any question to the user.
#[derive(Clone, Copy, Debug, PartialEq, Eq, Structural)]
pub enum QuitCheck {
    /// Not while a dictation is going on.
    Refuse,
    /// Nothing is unsaved.
    Allow,
    /// There are unsaved changes: ask whether to save them first.
    AskToSave,
}

/// How the question whether to save before quitting was answered.
#[derive(Clone, Copy, Debug, PartialEq, Eq, Structural)]
pub enum SavePrompt {
    /// The user did not want to save.
    Declined,
    /// The user wanted to save, and the text was saved.
    Saved,
    /// The user wanted to save, and saving failed.
    SaveFailed,
}

/// What came of reading the file chosen to be opened.
pub enum OpenOutcome {
    /// The file could not be opened; the text was not touched.
    NotOpened,
    /// The file was opened, the text cleared, and reading failed: the text is
    /// what the reading left in it.
    ReadFailed(String),
    /// The whole file was read.
    Read(String),
}

/// Why opening or saving a file failed.
#[derive(Clone, Copy, Debug, PartialEq, Eq, Structural)]
pub enum FileError {
    Open,
    Read,
    Write,
}

/// The editor as it starts: empty, showing the rendered text, with no file,
/// and counted as changed.
pub open spec fn initial_state() -> EditorState {
    EditorState {
        code: Seq::empty(),
        show_rendered: true,
        file_path: None,
        has_changed: true,
        should_exit: false,
        is_exiting: false,
        is_recording: false,
        is_stopping: false,
        backup_code: Seq::empty(),
    }
}

/// The state after the user asked to close the window.
pub open spec fn exit_requested(s: EditorState) -> EditorState {
    EditorState { is_exiting: true, ..s }
}

/// What the dictation button shows in a state.
pub open spec fn dictate_button_of(s: EditorState) -> DictateButton {
    if s.is_recording && s.is_stopping {
        DictateButton::Spinner
    } else if !s.is_recording && !s.is_stopping {
        DictateButton::Dictate
    } else {
        DictateButton::Stop
    }
}

/// The state once a dictation has started: the text is kept aside.
pub open spec fn recording_started(s: EditorState) -> EditorState {
    EditorState { is_recording: true, backup_code: s.code, ..s }
}

/// The state after a click on the dictation button, and the order for the recorder.
pub open spec fn dictate_clicked_in(s: EditorState) -> (EditorState, Option<GuiOrders>) {
    if s.is_recording && s.is_stopping {
        (s, None)
    } else if !s.is_recording {
        (recording_started(s), Some(GuiOrders::Record))
    } else if !s.is_stopping {
        (EditorState { is_stopping: true, ..s }, Some(GuiOrders::Stop))
    } else {
        (s, None)
    }
}

/// The speech the editor waits for in a state.
pub open spec fn recording_phase_of(s: EditorState) -> RecordingPhase {
    if s.is_stopping {
        RecordingPhase::Stopping
    } else if s.is_recording {
        RecordingPhase::Recording
    } else {
        RecordingPhase::Idle
    }
}

/// The three dots that mark an intermediate result.
pub open spec fn ellipsis() -> Seq<char> {
    seq!['.', '.', '.']
}

/// The state with the text replaced by `code`; a text that differs from the
/// one before is an unsaved change.
pub open spec fn with_code(s: EditorState, code: Seq<char>) -> EditorState {
    EditorState { code: code, has_changed: s.has_changed || code != s.code, ..s }
}

/// The state after an intermediate result: the text kept aside, the result,
/// and "...". An intermediate result is only shown: it is not an unsaved change.
pub open spec fn with_intermediate(s: EditorState, text: Seq<char>) -> EditorState {
    EditorState { code: s.backup_code + text + ellipsis(), ..s }
}

/// The state after the final result: the text kept aside and the result; the
/// dictation is over. A final result that adds text to the text kept aside is
/// an unsaved change.
pub open spec fn with_final(s: EditorState, text: Seq<char>) -> EditorState {
    EditorState {
        code: s.backup_code + text,
        has_changed: s.has_changed || s.backup_code + text != s.backup_code,
        backup_code: Seq::empty(),
        is_recording: false,
        is_stopping: false,
        ..s
    }
}

/// The state after some decoded speech arrived.
pub open spec fn with_speech(s: EditorState, speech: DecodedSpeech) -> EditorState {
    match speech {
        DecodedSpeech::Intermediate(text) => with_intermediate(s, text@),
        DecodedSpeech::Final(text) => with_final(s, text@),
    }
}

/// Whether the editor may close, before any question to the user.
pub open spec fn quit_check_of(s: EditorState) -> QuitCheck {
    if s.is_recording || s.is_stopping {
        QuitCheck::Refuse
    } else if s.has_changed {
        QuitCheck::AskToSave
    } else {
        QuitCheck::Allow
    }
}

/// Whether the editor may close, given how the question whether to save was
/// answered (`None` where it was not asked): never during a dictation; with
/// unsaved changes only if the user declined to save them or they were saved.
pub open spec fn exit_allowed(s: EditorState, answer: Option<SavePrompt>) -> bool {
    match quit_check_of(s) {
        QuitCheck::Refuse => false,
        QuitCheck::Allow => true,
        QuitCheck::AskToSave => answer == Some(SavePrompt::Declined) || answer == Some(SavePrompt::Saved),
    }
}

/// The state once the editor has decided whether to close, and the order for the recorder.
pub open spec fn exit_decided(s: EditorState, answer: Option<SavePrompt>) -> (EditorState, Option<GuiOrders>) {
    if exit_allowed(s, answer) {
        (EditorState { should_exit: true, ..s }, Some(GuiOrders::Exit))
    } else {
        (EditorState { should_exit: false, is_exiting: false, ..s }, None)
    }
}

/// Where "save" writes: the editor's file, unless there is none or "save as" was asked
/// for; `None` means that the user is asked for a path.
pub open spec fn save_target_of(s: EditorState, save_as: bool) -> Option<Seq<char>> {
    match s.file_path {
        Some(p) => if save_as { None } else { Some(p) },
        None => None,
    }
}

/// The state after trying to save the text to `path`; `written` tells whether it was written.
pub open spec fn saved_in(s: EditorState, path: Seq<char>, written: bool) -> EditorState {
    if written {
        EditorState { file_path: Some(path), has_changed: false, ..s }
    } else {
        s
    }
}

/// The state after trying to open `path`.
pub open spec fn opened_in(s: EditorState, path: Seq<char>, outcome: OpenOutcome) -> EditorState {
    match outcome {
        OpenOutcome::NotOpened => s,
        OpenOutcome::ReadFailed(left) => EditorState { code: left@, ..s },
        OpenOutcome::Read(text) => EditorState {
            code: text@,
            file_path: Some(path),
            has_changed: false,
            ..s
        },
    }
}

/// The editor and the selection after the markup shortcuts `keys`: unchanged
/// during a dictation; otherwise the markers are toggled in turn, and a text
/// that differs from the one before is an unsaved change.
pub open spec fn shortcuts_applied(s: EditorState, r: CursorRange, keys: Seq<ShortcutKey>) -> (EditorState, CursorRange) {
    if s.is_recording {
        (s, r)
    } else {
        (with_code(s, apply_toggles(s.code, r, keys).0), apply_toggles(s.code, r, keys).1)
    }
}

/// The label that names the editor's file: its file name, with `*` after it
/// while there are unsaved changes.
pub open spec fn title_of(s: EditorState) -> Option<Seq<char>> {
    match s.file_path {
        Some(p) => file_label_of(path_file_name_of(p), s.has_changed),
        None => None,
    }
}

/// The label for a file name: the name, with `*` after it while there are
/// unsaved changes; no label where there is no file name.
pub open spec fn file_label_of(file_name: Option<Seq<char>>, has_changed: bool) -> Option<Seq<char>> {
    match file_name {
        Some(name) => Some(if has_changed { name + seq!['*'] } else { name }),
        None => None,
    }
}

/// The label for a file name: the name, with `*` after it while there are
/// unsaved changes.
pub fn file_label(file_name: Option<String>, has_changed: bool) -> (r: Option<String>)
    ensures
        match r {
            Some(t) => file_label_of(
                match file_name {
                    Some(n) => Some(n@),
                    None => None,
                },
                has_changed,
            ) == Some(t@),
            None => file_name is None,
        },
{
    match file_name {
        Some(name) => {
            if has_changed {
                let mut label = name;
                proof {
                    reveal_strlit("*");
                }
                label.append("*");
                Some(label)
            } else {
                Some(name)
            }
        },
        None => None,
    }
}

impl TextEditor {
    /// An empty editor with no file.
    pub fn new() -> (e: TextEditor)
        ensures
            e@ == initial_state(),
    {
        TextEditor {
            code: String::new(),
            show_rendered: true,
            file_path: None,
            has_changed: true,
            should_exit: false,
            is_exiting: false,
            is_recording: false,
            is_stopping: false,
            backup_code: String::new(),
        }
    }

    /// The text being edited.
    pub fn code(&self) -> (r: &String)
        ensures
            r@ == self@.code,
    {
        &self.code
    }

    /// Whether the rendered text is shown beside the source.
    pub fn show_rendered(&self) -> (r: bool)
        ensures
            r == self@.show_rendered,
    {
        self.show_rendered
    }

    /// Shows or hides the rendered text.
    pub fn set_show_rendered(&mut self, show: bool)
        ensures
            final(self)@ == (EditorState { show_rendered: show, ..old(self)@ }),
    {
        self.show_rendered = show;
    }

    /// Whether the user has asked to close the window and the answer is pending.
    pub fn is_exiting(&self) -> (r: bool)
        ensures
            r == self@.is_exiting,
    {
        self.is_exiting
    }

    /// The user asked to close the window: the question is noted, and the
    /// window closes now only if the editor has already agreed to it.
    pub fn on_exit_event(&mut self) -> (close: bool)
        ensures
            final(self)@ == exit_requested(old(self)@),
            close == old(self)@.should_exit,
    {
        self.is_exiting = true;
        self.should_exit
    }

    /// What the dictation button shows.
    pub fn dictate_button(&self) -> (b: DictateButton)
        ensures
            b == dictate_button_of(self@),
    {
        if self.is_recording && self.is_stopping {
            DictateButton::Spinner
        } else if !self.is_recording && !self.is_stopping {
            DictateButton::Dictate
        } else {
            DictateButton::Stop
        }
    }

    /// Starts a dictation: the text is kept aside, and the recorder is told to record.
    pub fn start_recording(&mut self) -> (order: GuiOrders)
        ensures
            final(self)@ == recording_started(old(self)@),
            order == GuiOrders::Record,
    {
        self.is_recording = true;
        self.backup_code = self.code.clone();
        GuiOrders::Record
    }

    /// A click on the dictation button: starts a dictation, or stops the one
    /// that is going on. Returns the order to send to the recorder.
    pub fn dictate_clicked(&mut self) -> (order: Option<GuiOrders>)
        ensures
            (final(self)@, order) == dictate_clicked_in(old(self)@),
    {
        if self.is_recording && self.is_stopping {
            None
        } else if !self.is_recording {
            Some(self.start_recording())
        } else if !self.is_stopping {
            self.is_stopping = true;
            Some(GuiOrders::Stop)
        } else {
            None
        }
    }

    /// The speech the editor waits for.
    pub fn recording_phase(&self) -> (p: RecordingPhase)
        ensures
            p == recording_phase_of(self@),
    {
        if self.is_stopping {
            RecordingPhase::Stopping
        } else if self.is_recording {
            RecordingPhase::Recording
        } else {
            RecordingPhase::Idle
        }
    }

    /// Whether the text can be edited by hand: not during a dictation.
    pub fn text_editable(&self) -> (r: bool)
        ensures
            r == !self@.is_recording,
    {
        !self.is_recording
    }

    /// Replaces the text; a text that differs from the one before is an unsaved change.
    fn set_code(&mut self, code: String)
        ensures
            final(self)@ == with_code(old(self)@, code@),
    {
        let same = code == self.code;
        self.code = code;
        if !same {
            self.has_changed = true;
        }
    }

    /// Shows an intermediate result after the text that was kept aside.
    fn show_intermediate(&mut self, text: String)
        ensures
            final(self)@ == with_intermediate(old(self)@, text@),
    {
        let mut code = self.backup_code.clone();
        code.append(text.as_str());
        proof {
            reveal_strlit("...");
            assert("..."@ =~= ellipsis());
        }
        code.append("...");
        self.code = code;
    }

    /// Takes decoded speech during a dictation, before it is stopped: only
    /// intermediate results come then.
    pub fn manage_recording(&mut self, speech: DecodedSpeech)
        requires
            speech is Intermediate,
        ensures
            final(self)@ == with_speech(old(self)@, speech),
    {
        match speech {
            DecodedSpeech::Intermediate(text) => self.show_intermediate(text),
            DecodedSpeech::Final(_) => {},
        }
    }

    /// Takes decoded speech after the dictation was stopped: intermediate
    /// results are shown, and the final one ends the dictation.
    pub fn end_recording(&mut self, speech: DecodedSpeech)
        ensures
            final(self)@ == with_speech(old(self)@, speech),
    {
        match speech {
            DecodedSpeech::Intermediate(text) => self.show_intermediate(text),
            DecodedSpeech::Final(text) => {
                let mut code = self.backup_code.clone();
                code.append(text.as_str());
                let unchanged = code == self.backup_code;
                self.code = code;
                if !unchanged {
                    self.has_changed = true;
                }
                self.backup_code = String::new();
                // only now the recording is done and fully processed
                self.is_stopping = false;
                self.is_recording = false;
            },
        }
    }

    /// Whether the editor may close: never during a dictation; with unsaved
    /// changes only after asking whether to save them.
    pub fn quit(&self) -> (check: QuitCheck)
        ensures
            check == quit_check_of(self@),
    {
        if self.is_recording || self.is_stopping {
            QuitCheck::Refuse
        } else if self.has_changed {
            QuitCheck::AskToSave
        } else {
            QuitCheck::Allow
        }
    }

    /// Decides whether the editor closes, given how the question whether to
    /// save was answered (`None` where it was not asked). Where it closes, the
    /// recorder is told to exit; where it does not, the request to close is dropped.
    pub fn finish_exit(&mut self, answer: Option<SavePrompt>) -> (order: Option<GuiOrders>)
        ensures
            (final(self)@, order) == exit_decided(old(self)@, answer),
    {
        let can_quit = match self.quit() {
            QuitCheck::Refuse => false,
            QuitCheck::Allow => true,
            QuitCheck::AskToSave => match answer {
                Some(SavePrompt::Declined) => true,
                Some(SavePrompt::Saved) => true,
                _ => false,
            },
        };
        self.should_exit = can_quit;
        if can_quit {
            Some(GuiOrders::Exit)
        } else {
            self.is_exiting = false;
            None
        }
    }

    /// Where "save" (or, with `save_as`, "save as") writes; `None` means that
    /// the user is asked for a path.
    pub fn save_target(&self, save_as: bool) -> (r: Option<String>)
        ensures
            match r {
                Some(p) => save_target_of(self@, save_as) == Some(p@),
                None => save_target_of(self@, save_as) is None,
            },
    {
        match &self.file_path {
            Some(p) => if save_as {
                None
            } else {
                Some(p.clone())
            },
            None => None,
        }
    }

    /// Records an attempt to save the text to `path`: once written, that path
    /// is the editor's file and nothing is unsaved.
    pub fn finish_save(&mut self, path: String, written: bool) -> (r: Result<(), FileError>)
        ensures
            final(self)@ == saved_in(old(self)@, path@, written),
            written ==> r is Ok,
            !written ==> r == Err::<(), FileError>(FileError::Write),
    {
        if written {
            self.file_path = Some(path);
            self.has_changed = false;
            Ok(())
        } else {
            Err(FileError::Write)
        }
    }

    /// Records an attempt to open `path`: once read, its contents are the text,
    /// that path is the editor's file, and nothing is unsaved.
    pub fn finish_open(&mut self, path: String, outcome: OpenOutcome) -> (r: Result<(), FileError>)
        ensures
            final(self)@ == opened_in(old(self)@, path@, outcome),
            outcome is NotOpened ==> r == Err::<(), FileError>(FileError::Open),
            outcome is ReadFailed ==> r == Err::<(), FileError>(FileError::Read),
            outcome is Read ==> r is Ok,
    {
        match outcome {
            OpenOutcome::NotOpened => Err(FileError::Open),
            OpenOutcome::ReadFailed(left) => {
                self.code = left;
                Err(FileError::Read)
            },
            OpenOutcome::Read(text) => {
                self.code = text;
                self.file_path = Some(path);
                self.has_changed = false;
                Ok(())
            },
        }
    }

    /// The label that names the editor's file, if it has one with a file name.
    pub fn title(&self) -> (r: Option<String>)
        ensures
            match r {
                Some(t) => title_of(self@) == Some(t@),
                None => title_of(self@) is None,
            },
    {
        match &self.file_path {
            Some(p) => file_label(path_file_name(p.as_str()), self.has_changed),
            None => None,
        }
    }

    /// The user changed the text by hand: it is now unsaved.
    pub fn user_edit(&mut self, new_code: String)
        ensures
            final(self)@ == (EditorState { code: new_code@, has_changed: true, ..old(self)@ }),
    {
        self.code = new_code;
        self.has_changed = true;
    }

    /// Applies the markup shortcuts whose keys were pressed, in the order
    /// given, to the text and its selection, and returns whether any was
    /// applied. During a dictation the text is not writable, and nothing changes.
    pub fn apply_shortcuts(&mut self, ccursor_range: &mut CursorRange, pressed: &Vec<ShortcutKey>) -> (any_change: bool)
        requires
            old(ccursor_range).primary + pressed@.len() <= usize::MAX,
            old(ccursor_range).secondary + pressed@.len() <= usize::MAX,
        ensures
            any_change == (!old(self)@.is_recording && pressed@.len() > 0),
            (final(self)@, *final(ccursor_range)) == shortcuts_applied(old(self)@, *old(ccursor_range), pressed@),
    {
        if self.is_recording {
            return false;
        }
        let mut code = self.code.clone();
        let any_change = shortcuts(&mut code, ccursor_range, pressed);
        self.set_code(code);
        any_change
    }
}

/// Two editors are equal when they hold the same text and both show, or both
/// hide, the rendered text.
impl PartialEq for TextEditor {
    fn eq(&self, other: &Self) -> (r: bool) {
        self.code == other.code && self.show_rendered == other.show_rendered
    }
}

impl vstd::std_specs::cmp::PartialEqSpecImpl for TextEditor {
    open spec fn obeys_eq_spec() -> bool {
        true
    }

    open spec fn eq_spec(&self, other: &Self) -> bool {
        self@.code == other@.code && self@.show_rendered == other@.show_rendered
    }
}

/// The state after a run of intermediate results, one after the other.
pub open spec fn with_intermediates(s: EditorState, texts: Seq<Seq<char>>) -> EditorState
    decreases texts.len(),
{
    if texts.len() == 0 {
        s
    } else {
        with_intermediate(with_intermediates(s, texts.drop_last()), texts.last())
    }
}

/// Intermediate results change nothing but the text shown.
pub proof fn lemma_intermediates_keep_state(s: EditorState, texts: Seq<Seq<char>>)
    ensures
        with_intermediates(s, texts) == (EditorState { code: with_intermediates(s, texts).code, ..s }),
    decreases texts.len(),
{
    if texts.len() > 0 {
        lemma_intermediates_keep_state(s, texts.drop_last());
    }
}

/// Every step of the editor keeps it from waiting for the end of a dictation
/// that is not going on.
pub proof fn law_steps_keep_wf(
    s: EditorState,
    speech: DecodedSpeech,
    answer: Option<SavePrompt>,
    path: Seq<char>,
    written: bool,
    outcome: OpenOutcome,
    code: Seq<char>,
    show: bool,
    r: CursorRange,
    keys: Seq<ShortcutKey>,
)
    requires
        s.wf(),
    ensures
        initial_state().wf(),
        exit_requested(s).wf(),
        recording_started(s).wf(),
        dictate_clicked_in(s).0.wf(),
        with_speech(s, speech).wf(),
        exit_decided(s, answer).0.wf(),
        saved_in(s, path, written).wf(),
        opened_in(s, path, outcome).wf(),
        (EditorState { code: code, has_changed: true, ..s }).wf(),
        shortcuts_applied(s, r, keys).0.wf(),
        (EditorState { show_rendered: show, ..s }).wf(),
{
}

/// A dictation puts what was said after the text: whatever intermediate
/// results come before and after the user stops it, once the final result
/// arrives the text is the text from before the dictation followed by the
/// final result; it is an unsaved change exactly when the final result is not
/// empty (or there were unsaved changes before), whatever intermediate results
/// were shown; and the editor is back where it was in every other respect.
pub proof fn law_dictation_appends_final_text(
    s: EditorState,
    before_stop: Seq<Seq<char>>,
    after_stop: Seq<Seq<char>>,
    final_text: Seq<char>,
)
    requires
        !s.is_recording,
        !s.is_stopping,
    ensures
        dictate_clicked_in(s).1 == Some(GuiOrders::Record),
        dictate_clicked_in(with_intermediates(dictate_clicked_in(s).0, before_stop)).1 == Some(
            GuiOrders::Stop,
        ),
        ({
            let end = with_final(
                with_intermediates(
                    dictate_clicked_in(with_intermediates(dictate_clicked_in(s).0, before_stop)).0,
                    after_stop,
                ),
                final_text,
            );
            &&& end == (EditorState {
                code: s.code + final_text,
                backup_code: Seq::empty(),
                has_changed: s.has_changed || final_text.len() > 0,
                ..s
            })
        }),
{
    let s1 = dictate_clicked_in(s).0;
    assert(s1 == recording_started(s));
    lemma_intermediates_keep_state(s1, before_stop);
    let s2 = with_intermediates(s1, before_stop);
    let s3 = dictate_clicked_in(s2).0;
    assert(s3 == EditorState { is_stopping: true, ..s2 });
    lemma_intermediates_keep_state(s3, after_stop);
    let s4 = with_intermediates(s3, after_stop);
    assert(s4.backup_code == s.code);
    let end = with_final(s4, final_text);
    assert(end.code =~= s.code + final_text);
    if final_text.len() > 0 {
        assert((s.code + final_text).len() > s.code.len());
    } else {
        assert(s.code + final_text =~= s.code);
    }
}

/// After a successful save, "save" writes to the same path again, nothing is
/// unsaved, and the label names that file without a `*`.
pub proof fn law_saved_path_is_next_target(s: EditorState, path: Seq<char>)
    ensures
        save_target_of(saved_in(s, path, true), false) == Some(path),
        !saved_in(s, path, true).has_changed,
        title_of(saved_in(s, path, true)) == path_file_name_of(path),
{
}

/// After a file is read, the text is its contents, and "save" writes back to it.
pub proof fn law_opened_file_is_next_target(s: EditorState, path: Seq<char>, text: String)
    ensures
        opened_in(s, path, OpenOutcome::Read(text)).code == text@,
        save_target_of(opened_in(s, path, OpenOutcome::Read(text)), false) == Some(path),
        !opened_in(s, path, OpenOutcome::Read(text)).has_changed,
{
}

/// A failed save, or a file that could not be opened, leaves the editor as it was.
pub proof fn law_failed_file_operations_change_nothing(s: EditorState, path: Seq<char>)
    ensures
        saved_in(s, path, false) == s,
        opened_in(s, path, OpenOutcome::NotOpened) == s,
{
}

/// The editor's decision on closing is what the window is told the next time
/// it asks; a refusal also drops the pending request to close; and the
/// recorder is told to exit exactly when the editor closes.
pub proof fn law_exit_decision_is_kept(s: EditorState, answer: Option<SavePrompt>)
    ensures
        exit_decided(s, answer).0.should_exit == exit_allowed(s, answer),
        exit_requested(exit_decided(s, answer).0).should_exit == exit_allowed(s, answer),
        !exit_allowed(s, answer) ==> !exit_decided(s, answer).0.is_exiting,
        exit_allowed(s, answer) <==> exit_decided(s, answer).1 == Some(GuiOrders::Exit),
{
}

/// The editor never closes during a dictation, nor with unsaved changes that
/// failed to save or that the user was not asked about.
pub proof fn law_no_quit_while_dictating_or_unsaved(s: EditorState, answer: Option<SavePrompt>)
    ensures
        s.is_recording || s.is_stopping ==> quit_check_of(s) == QuitCheck::Refuse && !exit_allowed(
            s,
            answer,
        ) && exit_decided(s, answer).1 is None,
        s.has_changed && (answer is None || answer == Some(SavePrompt::SaveFailed)) ==> !exit_allowed(
            s,
            answer,
        ),
{
}

/// During a dictation the shortcuts change nothing; otherwise any change of
/// the text they make is an unsaved change.
pub proof fn law_shortcuts_respect_dictation_and_unsaved(s: EditorState, r: CursorRange, keys: Seq<ShortcutKey>)
    ensures
        s.is_recording ==> shortcuts_applied(s, r, keys) == (s, r),
        shortcuts_applied(s, r, keys).0.code != s.code ==> shortcuts_applied(s, r, keys).0.has_changed,
        s.has_changed ==> shortcuts_applied(s, r, keys).0.has_changed,
{
}

/// With no dictation going on, the editor may close once the user chose to
/// save and the save succeeded, or declined to save; with nothing unsaved it
/// may close whatever the answer.
pub proof fn law_exit_allowed_when_idle(s: EditorState, answer: Option<SavePrompt>)
    requires
        !s.is_recording,
        !s.is_stopping,
    ensures
        exit_allowed(s, Some(SavePrompt::Saved)),
        exit_allowed(s, Some(SavePrompt::Declined)),
        !s.has_changed ==> exit_allowed(s, answer),
        exit_decided(s, Some(SavePrompt::Saved)).1 == Some(GuiOrders::Exit),
{
}

/// An intermediate result shows the text kept aside, then the result, then
/// three dots, for every result, the empty one included; the text kept aside
/// always begins what is shown.
pub proof fn law_intermediate_keeps_text_before(s: EditorState, t: Seq<char>)
    ensures
        with_intermediate(s, t).code == s.backup_code + t + seq!['.', '.', '.'],
        with_intermediate(s, t).code.subrange(0, s.backup_code.len() as int) == s.backup_code,
        with_intermediate(s, t).code.len() == s.backup_code.len() + t.len() + 3,
        with_final(s, t).code == s.backup_code + t,
{
    assert(with_intermediate(s, t).code.subrange(0, s.backup_code.len() as int) =~= s.backup_code);
}

/// A save uses the editor's file only for a plain save of an editor that has
/// one; "save as", and a save with no file yet, ask the user for a path.
pub proof fn law_save_target(s: EditorState, save_as: bool)
    ensures
        save_target_of(s, true) is None,
        s.file_path is None ==> save_target_of(s, save_as) is None,
        s.file_path is Some ==> save_target_of(s, false) == s.file_path,
{
}

} // verus!
