use voice_editor::easy_mark_editor::{RecordingPhase, TextEditor};
use voice_editor::recorder::{AudioMessage, GuiOrders, Recorder, RecorderAction};
use voice_editor::stter::{DecodedSpeech, SttAction, SttSession};

/// One dictation, passed by hand through the three threads in order.
#[test]
fn dictation_round_trip_through_the_threads() {
    let mut editor = TextEditor::new();
    let mut recorder = Recorder::new();
    let mut session = SttSession::new();

    let order = editor.dictate_clicked().unwrap();
    assert_eq!(order, GuiOrders::Record);
    assert_eq!(recorder.step(order), RecorderAction::StartStream);
    assert!(recorder.should_send());

    let mut to_editor: Vec<DecodedSpeech> = vec![];
    for i in 1..=200u32 {
        let chunk = AudioMessage::Audio(vec![1, 2, 3]);
        if let SttAction::Feed { decode_intermediate: true } = session.step(&chunk) {
            to_editor.push(DecodedSpeech::Intermediate(format!("part {}", i)));
        }
    }
    assert_eq!(to_editor.len(), 2);
    for speech in to_editor.drain(..) {
        assert_eq!(editor.recording_phase(), RecordingPhase::Recording);
        editor.manage_recording(speech);
    }
    assert_eq!(editor.code(), "part 200...");

    let order = editor.dictate_clicked().unwrap();
    assert_eq!(order, GuiOrders::Stop);
    assert_eq!(recorder.step(order), RecorderAction::SendEndOf);
    assert!(!recorder.should_send());
    assert_eq!(session.step(&AudioMessage::EndOf), SttAction::Finish);
    assert_eq!(editor.dictate_clicked(), None);
    editor.end_recording(DecodedSpeech::Final(String::from("all done")));
    assert_eq!(editor.code(), "all done");
    assert_eq!(editor.recording_phase(), RecordingPhase::Idle);

    assert!(!editor.on_exit_event());
    let order = editor
        .finish_exit(Some(voice_editor::easy_mark_editor::SavePrompt::Declined))
        .unwrap();
    assert_eq!(order, GuiOrders::Exit);
    assert_eq!(recorder.step(order), RecorderAction::SendExit);
    assert_eq!(session.step(&AudioMessage::Exit), SttAction::Exit);
    assert!(editor.on_exit_event());
}
