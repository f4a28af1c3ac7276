use vstd::prelude::*;

verus! {

/// The model hub repository that holds the pretrained weight files.
pub const MODEL_REPO: &'static str = "ggerganov/whisper.cpp";

/// The sizes of speech-recognition model that can be chosen.
#[derive(Debug, Clone, Copy, PartialEq, Eq, Structural)]
pub enum WhisperModel {
    Tiny,
    Small,
    Base,
    Large,
}

/// Every model size, in the order in which they are offered.
pub open spec fn all_models() -> Seq<WhisperModel> {
    seq![WhisperModel::Tiny, WhisperModel::Small, WhisperModel::Base, WhisperModel::Large]
}

/// The name under which a model size is shown.
pub open spec fn model_name(model: WhisperModel) -> Seq<char> {
    match model {
        WhisperModel::Tiny => "Tiny"@,
        WhisperModel::Small => "Small"@,
        WhisperModel::Base => "Base"@,
        WhisperModel::Large => "Large"@,
    }
}

/// The file, in the model repository, that holds the weights of `model`.
pub open spec fn model_filename(model: WhisperModel) -> Seq<char> {
    match model {
        WhisperModel::Tiny => "ggml-tiny.bin"@,
        WhisperModel::Small => "ggml-small.bin"@,
        WhisperModel::Base => "ggml-base.bin"@,
        WhisperModel::Large => "ggml-large-v2.bin"@,
    }
}

impl Default for WhisperModel {
    fn default() -> (r: WhisperModel)
        ensures
            r == WhisperModel::Small,
    {
        WhisperModel::Small
    }
}

impl WhisperModel {
    /// Every model size, in the order in which they are offered.
    pub fn all() -> (r: Vec<WhisperModel>)
        ensures
            r@ == all_models(),
    {
        let r = vec![WhisperModel::Tiny, WhisperModel::Small, WhisperModel::Base, WhisperModel::Large];
        assert(r@ =~= all_models());
        r
    }

    /// The name under which this model size is shown.
    pub fn name(&self) -> (r: String)
        ensures
            r@ == model_name(*self),
    {
        match self {
            WhisperModel::Tiny => String::from_str("Tiny"),
            WhisperModel::Small => String::from_str("Small"),
            WhisperModel::Base => String::from_str("Base"),
            WhisperModel::Large => String::from_str("Large"),
        }
    }
}

/// Name of the file of weights for `model` in the model repository.
pub fn get_model_filenaame(model: WhisperModel) -> (r: String)
    ensures
        r@ == model_filename(model),
{
    match model {
        WhisperModel::Tiny => String::from_str("ggml-tiny.bin"),
        WhisperModel::Small => String::from_str("ggml-small.bin"),
        WhisperModel::Base => String::from_str("ggml-base.bin"),
        WhisperModel::Large => String::from_str("ggml-large-v2.bin"),
    }
}

} // verus!
