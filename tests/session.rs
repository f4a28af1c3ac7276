use whisper_ui::models::WhisperModel;
use whisper_ui::session::{App, Command, Message};
use whisper_ui::whisper::{Effect, Event, State};

#[test]
fn new_app_has_base_model_and_no_file() {
    let a = App::new();
    assert_eq!(a.selected_model(), WhisperModel::Base);
    assert_eq!(a.file_to_process(), None);
    assert_eq!(a.error(), None);
    assert!(a.transcription().is_none());
    assert!(matches!(a.main_action(), Message::SelectFile));
    assert_eq!(App::default().selected_model(), WhisperModel::Base);
}

#[test]
fn select_file_asks_for_a_pick() {
    let mut a = App::new();
    assert!(matches!(a.update(Message::SelectFile), Command::PickFile));
    assert_eq!(a.file_to_process(), None);
}

#[test]
fn process_without_file_does_nothing() {
    let mut a = App::new();
    assert!(matches!(a.update(Message::Process), Command::Nothing));
    assert!(a.transcription().is_none());
}

#[test]
fn chosen_file_then_process_with_selected_model() {
    let mut a = App::new();
    assert!(matches!(a.update(Message::FileSelected("/tmp/talk.mp3".to_string())), Command::Nothing));
    assert_eq!(a.file_to_process(), Some("/tmp/talk.mp3"));
    assert!(matches!(a.main_action(), Message::Process));
    assert_eq!(a.transcription().unwrap().state(), State::Idle);
    a.update(Message::SelectModel(WhisperModel::Tiny));
    match a.update(Message::Process) {
        Command::Transcription(Effect::Transcribe(m, f)) => {
            assert_eq!(m, WhisperModel::Tiny);
            assert_eq!(f, "/tmp/talk.mp3");
        }
        other => panic!("unexpected command {:?}", other),
    }
    assert_eq!(a.transcription().unwrap().state(), State::Transcribing);
}

#[test]
fn transcript_reaches_the_transcription() {
    let mut a = App::new();
    a.update(Message::FileSelected("f.wav".to_string()));
    let c = a.update(Message::TranscriptionEvent(Event::Processed("text\n".to_string())));
    match c {
        Command::Transcription(Effect::OpenEditor(s)) => assert_eq!(s, "text\n"),
        other => panic!("unexpected command {:?}", other),
    }
    let t = a.transcription().unwrap();
    assert_eq!(t.state(), State::Finished);
    assert_eq!(t.transcript(), Some("text\n".to_string()));
}

#[test]
fn transcription_event_without_file_does_nothing() {
    let mut a = App::new();
    let c = a.update(Message::TranscriptionEvent(Event::Processed("t".to_string())));
    assert!(matches!(c, Command::Nothing));
    assert!(a.transcription().is_none());
}

#[test]
fn error_is_kept() {
    let mut a = App::new();
    a.update(Message::Error("no model".to_string()));
    assert_eq!(a.error(), Some("no model"));
    a.update(Message::Error("later".to_string()));
    assert_eq!(a.error(), Some("later"));
}

#[test]
fn new_file_restarts_transcription() {
    let mut a = App::new();
    a.update(Message::FileSelected("a.wav".to_string()));
    a.update(Message::Process);
    a.update(Message::FileSelected("b.wav".to_string()));
    let t = a.transcription().unwrap();
    assert_eq!(t.file(), "b.wav");
    assert_eq!(t.state(), State::Idle);
    assert_eq!(a.selected_model(), WhisperModel::Base);
}
