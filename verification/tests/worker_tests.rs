use voice_editor::recorder::{check_input_config, AudioMessage, GuiOrders, InputConfigError, Recorder, RecorderAction};
use voice_editor::stter::{classify_extension, ModelFileKind, get_model_dir, get_model_scorer_names, ModelDirEntry, SttAction, SttSession};

#[test]
fn input_config_checks() {
    assert_eq!(check_input_config(1, 8000, 48000), Ok(()));
    assert_eq!(check_input_config(1, 16000, 16000), Ok(()));
    assert_eq!(check_input_config(2, 8000, 48000), Err(InputConfigError::NotMono));
    assert_eq!(check_input_config(2, 44100, 48000), Err(InputConfigError::NotMono));
    assert_eq!(check_input_config(1, 44100, 48000), Err(InputConfigError::SampleRateOutOfRange));
    assert_eq!(check_input_config(1, 8000, 11025), Err(InputConfigError::SampleRateOutOfRange));
}

#[test]
fn recorder_orders() {
    let mut r = Recorder::new();
    assert!(!r.should_send());
    assert_eq!(r.step(GuiOrders::Record), RecorderAction::StartStream);
    assert!(r.should_send());
    assert_eq!(r.step(GuiOrders::Stop), RecorderAction::SendEndOf);
    assert!(!r.should_send());
    assert_eq!(r.step(GuiOrders::Exit), RecorderAction::SendExit);
    assert!(!r.should_send());
}

#[test]
fn intermediate_decode_every_hundredth_chunk() {
    let mut s = SttSession::new();
    for i in 1..=250u32 {
        let action = s.step(&AudioMessage::Audio(vec![0i16; 4]));
        assert_eq!(action, SttAction::Feed { decode_intermediate: i % 100 == 0 });
        assert_eq!(s.chunk_count(), i);
    }
    assert_eq!(s.step(&AudioMessage::EndOf), SttAction::Finish);
    assert_eq!(s.chunk_count(), 0);
    assert_eq!(
        s.step(&AudioMessage::Audio(vec![])),
        SttAction::Feed { decode_intermediate: false }
    );
    assert_eq!(s.step(&AudioMessage::Exit), SttAction::Exit);
    assert_eq!(s.chunk_count(), 1);
}

#[test]
fn model_dir_from_arguments() {
    assert_eq!(get_model_dir(&vec![]), "en-model");
    assert_eq!(get_model_dir(&vec![String::from("pl-model"), String::from("x")]), "pl-model");
}

fn entry(path: &str, is_file: bool) -> ModelDirEntry {
    ModelDirEntry { path: String::from(path), is_file }
}

#[test]
fn model_and_scorer_are_picked_by_extension() {
    let entries = vec![
        entry("m/a.pb", true),
        entry("m/kenlm.scorer", true),
        entry("m/README", true),
        entry("m/b.tflite", true),
        entry("m/dir.pbmm", false),
    ];
    let (model, scorer) = get_model_scorer_names("m", &entries);
    assert_eq!(model, "m/b.tflite");
    assert_eq!(scorer, Some(String::from("m/kenlm.scorer")));
}

#[test]
fn default_model_without_model_files() {
    let entries = vec![entry("m/notes.txt", true), entry("m/.pb", true)];
    let (model, scorer) = get_model_scorer_names("m", &entries);
    assert_eq!(model, "m/output_graph.pb");
    assert_eq!(scorer, None);
}

#[test]
fn pbmm_model_is_found() {
    let entries = vec![entry("en-model/model.pbmm", true)];
    let (model, _) = get_model_scorer_names("en-model", &entries);
    assert_eq!(model, "en-model/model.pbmm");
}

#[test]
fn extensions_classify_files() {
    assert_eq!(classify_extension(true, Some(String::from("pb"))), ModelFileKind::Model);
    assert_eq!(classify_extension(true, Some(String::from("pbmm"))), ModelFileKind::Model);
    assert_eq!(classify_extension(true, Some(String::from("tflite"))), ModelFileKind::Model);
    assert_eq!(classify_extension(true, Some(String::from("scorer"))), ModelFileKind::Scorer);
    assert_eq!(classify_extension(true, Some(String::from("txt"))), ModelFileKind::Other);
    assert_eq!(classify_extension(true, None), ModelFileKind::Other);
    assert_eq!(classify_extension(false, Some(String::from("pb"))), ModelFileKind::Other);
}

#[test]
fn extension_follows_the_file_name() {
    let entries = vec![
        entry("m/.pb", true),
        entry("m/model.", true),
        entry("m/.hidden.scorer", true),
        entry("m/x.tar.pb", true),
    ];
    let (model, scorer) = get_model_scorer_names("m", &entries);
    assert_eq!(model, "m/x.tar.pb");
    assert_eq!(scorer, Some(String::from("m/.hidden.scorer")));
}
