use whisper_ui::models::WhisperModel;
use whisper_ui::whisper::{join_segments, Effect, Event, State, Transcription};

#[test]
fn new_transcription_is_idle() {
    let t = Transcription::new("talk.mp4");
    assert_eq!(t.file(), "talk.mp4");
    assert_eq!(t.state(), State::Idle);
    assert_eq!(t.transcript(), None);
    assert!(!t.has_editor());
    assert_eq!(t.status(), Some("Waiting to transcribe".to_string()));
}

#[test]
fn process_starts_transcribing() {
    let mut t = Transcription::new("talk.mp4");
    match t.update(Event::Process(WhisperModel::Large)) {
        Effect::Transcribe(m, f) => {
            assert_eq!(m, WhisperModel::Large);
            assert_eq!(f, "talk.mp4");
        }
        other => panic!("unexpected effect {:?}", other),
    }
    assert_eq!(t.state(), State::Transcribing);
    assert_eq!(t.status(), Some("Transcribing".to_string()));
    assert!(!t.has_editor());
}

#[test]
fn processed_opens_editor() {
    let mut t = Transcription::new("talk.mp4");
    t.process(WhisperModel::Tiny);
    match t.update(Event::Processed("hello\n".to_string())) {
        Effect::OpenEditor(s) => assert_eq!(s, "hello\n"),
        other => panic!("unexpected effect {:?}", other),
    }
    assert_eq!(t.state(), State::Finished);
    assert_eq!(t.status(), None);
    assert_eq!(t.transcript(), Some("hello\n".to_string()));
    assert!(t.has_editor());
}

#[test]
fn editor_update_without_editor_does_nothing() {
    let mut t = Transcription::new("a.wav");
    assert!(matches!(t.update(Event::EditorUpdate), Effect::Nothing));
    assert_eq!(t.state(), State::Idle);
}

#[test]
fn editor_update_with_editor_edits() {
    let mut t = Transcription::new("a.wav");
    t.update(Event::Processed("x".to_string()));
    assert!(matches!(t.update(Event::EditorUpdate), Effect::EditEditor));
    assert_eq!(t.state(), State::Finished);
    assert_eq!(t.transcript(), Some("x".to_string()));
}

#[test]
fn join_no_segments() {
    assert_eq!(join_segments(&vec![]), "");
}

#[test]
fn join_segments_one_per_line() {
    let segs = vec![" Hello".to_string(), String::new(), " world.".to_string()];
    assert_eq!(join_segments(&segs), " Hello\n\n world.\n");
}
