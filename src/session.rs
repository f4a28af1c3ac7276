use vstd::prelude::*;

use crate::models::WhisperModel;
use crate::whisper::{opt_view, update_post, Effect, Event, State, Transcription, TranscriptionView};

verus! {

/// What the user, or work that has finished, asks of the application.
#[derive(Debug, Clone)]
pub enum Message {
    SelectModel(WhisperModel),
    Error(String),
    /// The user asks to choose a file.
    SelectFile,
    /// A file was chosen, at this path.
    FileSelected(String),
    /// The user asks to transcribe the chosen file.
    Process,
    TranscriptionEvent(Event),
}

/// What the caller must carry out after a message has been taken in.
#[derive(Debug, Clone)]
pub enum Command {
    Nothing,
    /// Let the user pick a file, then hand back `Message::FileSelected`.
    PickFile,
    /// Carry out what the transcription asked for.
    Transcription(Effect),
}

/// The application: the file to transcribe, the model chosen, the last error
/// reported and the transcription of the file, if one was chosen.
pub struct App {
    file_to_process: Option<String>,
    selected_model: WhisperModel,
    error: Option<String>,
    transcription: Option<Transcription>,
}

/// The state of the application as plain values.
pub struct AppView {
    pub file_to_process: Option<Seq<char>>,
    pub selected_model: WhisperModel,
    pub error: Option<Seq<char>>,
    pub transcription: Option<TranscriptionView>,
}

pub open spec fn transcription_view(o: Option<Transcription>) -> Option<TranscriptionView> {
    match o {
        Some(t) => Some(t@),
        None => None,
    }
}

impl View for App {
    type V = AppView;

    closed spec fn view(&self) -> AppView {
        AppView {
            file_to_process: opt_view(self.file_to_process),
            selected_model: self.selected_model,
            error: opt_view(self.error),
            transcription: transcription_view(self.transcription),
        }
    }
}

/// How the application's transcription, if any, answers `event`.
pub open spec fn forward_post(pre: AppView, event: Event, post: AppView, r: Command) -> bool {
    &&& post.file_to_process == pre.file_to_process
    &&& post.selected_model == pre.selected_model
    &&& post.error == pre.error
    &&& match pre.transcription {
        Some(t) => post.transcription matches Some(t2) && r matches Command::Transcription(e)
            && update_post(t, event, t2, e),
        None => post.transcription.is_none() && r matches Command::Nothing,
    }
}

impl App {
    /// An application with no file chosen and the `Base` model selected.
    pub fn new() -> (r: App)
        ensures
            r@.file_to_process.is_none(),
            r@.selected_model == WhisperModel::Base,
            r@.error.is_none(),
            r@.transcription.is_none(),
    {
        App { file_to_process: None, selected_model: WhisperModel::Base, error: None, transcription: None }
    }

    pub fn file_to_process(&self) -> (r: Option<&str>)
        ensures
            match r {
                Some(f) => self@.file_to_process == Some(f@),
                None => self@.file_to_process.is_none(),
            },
    {
        match &self.file_to_process {
            Some(f) => Some(f.as_str()),
            None => None,
        }
    }

    pub fn selected_model(&self) -> (r: WhisperModel)
        ensures
            r == self@.selected_model,
    {
        self.selected_model
    }

    pub fn error(&self) -> (r: Option<&str>)
        ensures
            match r {
                Some(e) => self@.error == Some(e@),
                None => self@.error.is_none(),
            },
    {
        match &self.error {
            Some(e) => Some(e.as_str()),
            None => None,
        }
    }

    pub fn transcription(&self) -> (r: Option<&Transcription>)
        ensures
            match r {
                Some(t) => self@.transcription == Some(t@),
                None => self@.transcription.is_none(),
            },
    {
        match &self.transcription {
            Some(t) => Some(t),
            None => None,
        }
    }

    /// The message of the main button: transcribe once a file has been
    /// chosen, else choose one.
    pub fn main_action(&self) -> (r: Message)
        ensures
            if self@.file_to_process.is_some() {
                r matches Message::Process
            } else {
                r matches Message::SelectFile
            },
    {
        if self.file_to_process.is_some() {
            Message::Process
        } else {
            Message::SelectFile
        }
    }

    /// Hands `event` to the transcription, if a file has been chosen.
    fn forward(&mut self, event: Event) -> (r: Command)
        ensures
            forward_post(old(self)@, event, final(self)@, r),
    {
        match &mut self.transcription {
            Some(t) => Command::Transcription(t.update(event)),
            None => Command::Nothing,
        }
    }

    /// Takes in a message and says what the caller must carry out.
    pub fn update(&mut self, message: Message) -> (r: Command)
        ensures
            match message {
                Message::SelectFile => final(self)@ == old(self)@ && r matches Command::PickFile,
                Message::FileSelected(f) => {
                    &&& final(self)@.file_to_process == Some(f@)
                    &&& final(self)@.selected_model == old(self)@.selected_model
                    &&& final(self)@.error == old(self)@.error
                    &&& final(self)@.transcription matches Some(t) && t.file == f@
                        && t.state == State::Idle && t.transcript.is_none()
                    &&& r matches Command::Nothing
                },
                Message::Process => forward_post(
                    old(self)@,
                    Event::Process(old(self)@.selected_model),
                    final(self)@,
                    r,
                ),
                Message::SelectModel(m) => {
                    &&& final(self)@.file_to_process == old(self)@.file_to_process
                    &&& final(self)@.selected_model == m
                    &&& final(self)@.error == old(self)@.error
                    &&& final(self)@.transcription == old(self)@.transcription
                    &&& r matches Command::Nothing
                },
                Message::Error(e) => {
                    &&& final(self)@.file_to_process == old(self)@.file_to_process
                    &&& final(self)@.selected_model == old(self)@.selected_model
                    &&& final(self)@.error == Some(e@)
                    &&& final(self)@.transcription == old(self)@.transcription
                    &&& r matches Command::Nothing
                },
                Message::TranscriptionEvent(event) => forward_post(old(self)@, event, final(self)@, r),
            },
    {
        match message {
            Message::SelectFile => Command::PickFile,
            Message::FileSelected(f) => {
                self.transcription = Some(Transcription::new(f.as_str()));
                self.file_to_process = Some(f);
                Command::Nothing
            },
            Message::Process => {
                let model = self.selected_model;
                self.forward(Event::Process(model))
            },
            Message::SelectModel(m) => {
                self.selected_model = m;
                Command::Nothing
            },
            Message::Error(e) => {
                self.error = Some(e);
                Command::Nothing
            },
            Message::TranscriptionEvent(event) => self.forward(event),
        }
    }
}

impl Default for App {
    fn default() -> (r: App)
        ensures
            r@.file_to_process.is_none(),
            r@.selected_model == WhisperModel::Base,
            r@.error.is_none(),
            r@.transcription.is_none(),
    {
        App::new()
    }
}

} // verus!
