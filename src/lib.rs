//! Transcription of media files: the choice of model, the decoding of the
//! audio that the decoder hands over, the joining of recognised segments and
//! the state machines that drive the screen.

pub mod audio;
pub mod models;
pub mod session;
pub mod whisper;
