//! The logic of a small markdown-flavoured text editor with voice dictation:
//! the editor's state machine, the markup shortcuts that wrap a selection in
//! markers, and the decisions of the audio recorder and speech-to-text threads.
//! Windows, dialogs, files, audio devices and the speech model live in `app/`.

pub mod easy_mark_editor;
pub mod markup;
pub mod paths;
pub mod protocol;
pub mod recorder;
pub mod stter;
pub mod text_buffer;
