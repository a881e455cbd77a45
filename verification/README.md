# voice_editor

The verified core of a small markdown-flavoured text editor with voice
dictation.

- `src/markup.rs`: toggling markup markers around a selection (`*strong*`,
  `` `code` ``, `/italics/`, ...) and the keyboard shortcuts that do it, with
  the laws that toggling twice restores the text and that the selection keeps
  its characters.
- `src/easy_mark_editor.rs`: the editor's state machine (dictation, opening,
  saving, quitting) as spec transitions, the executable `TextEditor` proved
  against them, and its laws.
- `src/protocol.rs`: the three threads and their channels as one system,
  with an invariant kept by every step: no final result arrives while the
  user still speaks, the orders follow `(Record Stop)* Record? Exit?`, the
  editor closes only after telling the recorder to exit, and the recorder
  forwards audio only between `Record` and `Stop`; and once the final
  result for a `Stop` is on its way, the editor gets back to idle.
- `src/recorder.rs`, `src/stter.rs`: the decisions of the recording thread and
  the speech-to-text thread, and the choice of model files.
- `src/text_buffer.rs`, `src/paths.rs`: the trusted calls into egui's
  `TextBuffer` and std's `Path`.
- `app/`: the window (eframe), dialogs (rfd), audio capture (cpal) and the
  speech model (coqui-stt), driving the library.
