use vstd::prelude::*;

use crate::models::WhisperModel;

verus! {

/// Where a transcription stands.
#[derive(Debug, Clone, Copy, PartialEq, Eq, Structural)]
pub enum State {
    Idle,
    Finished,
    Transcribing,
}

/// What happens to a transcription. The edit that an editor event carries
/// belongs to the editor widget and is applied there, if an editor is open.
#[derive(Debug, Clone)]
pub enum Event {
    Process(WhisperModel),
    Processed(String),
    EditorUpdate,
}

/// What the caller must carry out after an event has been taken in.
#[derive(Debug, Clone)]
pub enum Effect {
    Nothing,
    /// Transcribe the file at this path with this model, then hand back the
    /// text as `Event::Processed` or report the failure.
    Transcribe(WhisperModel, String),
    /// Open the editor holding this text.
    OpenEditor(String),
    /// Apply the pending edit to the open editor.
    EditEditor,
}

/// A transcription of one media file and what has been made of it so far.
pub struct Transcription {
    file: String,
    state: State,
    transcript: Option<String>,
}

/// The state of a transcription as plain values.
pub struct TranscriptionView {
    pub file: Seq<char>,
    pub state: State,
    /// The text the editor was opened with, once the transcription has finished.
    pub transcript: Option<Seq<char>>,
}

/// The text held by an optional string, if any.
pub open spec fn opt_view(o: Option<String>) -> Option<Seq<char>> {
    match o {
        Some(s) => Some(s@),
        None => None,
    }
}

impl View for Transcription {
    type V = TranscriptionView;

    closed spec fn view(&self) -> TranscriptionView {
        TranscriptionView { file: self.file@, state: self.state, transcript: opt_view(self.transcript) }
    }
}

/// The status line shown above the transcript in each state, if any.
pub open spec fn status_line(state: State) -> Option<Seq<char>> {
    match state {
        State::Idle => Some("Waiting to transcribe"@),
        State::Finished => None,
        State::Transcribing => Some("Transcribing"@),
    }
}

/// How a transcription in state `pre` answers `event`: its state after, `post`,
/// and the effect `r` that the caller must carry out.
pub open spec fn update_post(pre: TranscriptionView, event: Event, post: TranscriptionView, r: Effect) -> bool {
    &&& post.file == pre.file
    &&& match event {
        Event::Process(model) => {
            &&& post.state == State::Transcribing
            &&& post.transcript == pre.transcript
            &&& r matches Effect::Transcribe(m, f) && m == model && f@ == pre.file
        },
        Event::Processed(text) => {
            &&& post.state == State::Finished
            &&& post.transcript == Some(text@)
            &&& r matches Effect::OpenEditor(t) && t@ == text@
        },
        Event::EditorUpdate => {
            &&& post.state == pre.state
            &&& post.transcript == pre.transcript
            &&& if pre.transcript.is_some() {
                r matches Effect::EditEditor
            } else {
                r matches Effect::Nothing
            }
        },
    }
}

impl Transcription {
    /// A transcription of the file at `file` that has not started.
    pub fn new(file: &str) -> (r: Transcription)
        ensures
            r@.file == file@,
            r@.state == State::Idle,
            r@.transcript.is_none(),
    {
        Transcription { file: file.to_owned(), state: State::Idle, transcript: None }
    }

    pub fn file(&self) -> (r: &str)
        ensures
            r@ == self@.file,
    {
        self.file.as_str()
    }

    pub fn state(&self) -> (r: State)
        ensures
            r == self@.state,
    {
        self.state
    }

    /// The text the editor was opened with, once the transcription has finished.
    pub fn transcript(&self) -> (r: Option<String>)
        ensures
            opt_view(r) == self@.transcript,
    {
        match &self.transcript {
            Some(t) => Some(t.clone()),
            None => None,
        }
    }

    /// Whether an editor holding the transcript is open.
    pub fn has_editor(&self) -> (r: bool)
        ensures
            r == self@.transcript.is_some(),
    {
        self.transcript.is_some()
    }

    /// Takes in an event and says what the caller must carry out.
    pub fn update(&mut self, event: Event) -> (r: Effect)
        ensures
            update_post(old(self)@, event, final(self)@, r),
    {
        match event {
            Event::EditorUpdate => {
                if self.transcript.is_some() {
                    Effect::EditEditor
                } else {
                    Effect::Nothing
                }
            },
            Event::Process(model) => self.process(model),
            Event::Processed(text) => {
                self.state = State::Finished;
                self.transcript = Some(text.clone());
                Effect::OpenEditor(text)
            },
        }
    }

    /// Starts transcribing the file with `model`.
    pub fn process(&mut self, model: WhisperModel) -> (r: Effect)
        ensures
            final(self)@.file == old(self)@.file,
            final(self)@.state == State::Transcribing,
            final(self)@.transcript == old(self)@.transcript,
            r matches Effect::Transcribe(m, f) && m == model && f@ == old(self)@.file,
    {
        self.state = State::Transcribing;
        Effect::Transcribe(model, self.file.clone())
    }

    /// The status line shown above the transcript, if any.
    pub fn status(&self) -> (r: Option<String>)
        ensures
            opt_view(r) == status_line(self@.state),
    {
        match self.state {
            State::Idle => Some(String::from_str("Waiting to transcribe")),
            State::Finished => None,
            State::Transcribing => Some(String::from_str("Transcribing")),
        }
    }
}

/// The text of a transcript made of `segments`: each segment followed by a
/// line break.
pub open spec fn transcript_of(segments: Seq<Seq<char>>) -> Seq<char>
    decreases segments.len(),
{
    if segments.len() == 0 {
        Seq::empty()
    } else {
        transcript_of(segments.drop_last()) + segments.last() + seq!['\n']
    }
}

/// Joins the recognised segments into one text, each on a line of its own.
pub fn join_segments(segments: &Vec<String>) -> (r: String)
    ensures
        r@ == transcript_of(segments@.map_values(|s: String| s@)),
{
    let ghost views = segments@.map_values(|s: String| s@);
    let mut text = String::new();
    let mut i: usize = 0;
    while i < segments.len()
        invariant
            i <= segments@.len(),
            views == segments@.map_values(|s: String| s@),
            text@ == transcript_of(views.subrange(0, i as int)),
        decreases segments@.len() - i,
    {
        proof {
            reveal_strlit("\n");
            assert(views.subrange(0, i + 1).drop_last() =~= views.subrange(0, i as int));
        }
        text.append(segments[i].as_str());
        text.append("\n");
        i = i + 1;
    }
    assert(views.subrange(0, segments@.len() as int) =~= views);
    text
}

} // verus!
