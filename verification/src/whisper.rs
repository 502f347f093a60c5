//! The local transcription models, by name.
//!
//! The transcription engine itself is an outside collaborator that receives
//! the encoded utterances this library produces; the library carries only
//! its plain data — which model to use, where it can be fetched, and the
//! status a consumer polls.

use vstd::prelude::*;

verus! {

/// One of the local transcription models.
#[derive(Debug, Clone)]
pub enum WhisperModel {
    TinyEn,
    BaseEn,
    SmallEn,
}

impl WhisperModel {
    /// The file name the model is stored under.
    pub open spec fn spec_filename(self) -> Seq<char> {
        match self {
            WhisperModel::TinyEn => "ggml-tiny.en.bin"@,
            WhisperModel::BaseEn => "ggml-base.en.bin"@,
            WhisperModel::SmallEn => "ggml-small.en.bin"@,
        }
    }

    /// The address the model can be fetched from: the project's model
    /// repository, followed by the model's file name.
    pub open spec fn spec_download_url(self) -> Seq<char> {
        match self {
            WhisperModel::TinyEn => "https://huggingface.co/ggerganov/whisper.cpp/resolve/main/ggml-tiny.en.bin"@,
            WhisperModel::BaseEn => "https://huggingface.co/ggerganov/whisper.cpp/resolve/main/ggml-base.en.bin"@,
            WhisperModel::SmallEn => "https://huggingface.co/ggerganov/whisper.cpp/resolve/main/ggml-small.en.bin"@,
        }
    }

    /// The file name the model is stored under.
    pub fn filename(&self) -> (r: &str)
        ensures
            r@ == self.spec_filename(),
    {
        match self {
            WhisperModel::TinyEn => "ggml-tiny.en.bin",
            WhisperModel::BaseEn => "ggml-base.en.bin",
            WhisperModel::SmallEn => "ggml-small.en.bin",
        }
    }

    /// The address the model can be fetched from.
    pub fn download_url(&self) -> (r: String)
        ensures
            r@ == self.spec_download_url(),
    {
        match self {
            WhisperModel::TinyEn => "https://huggingface.co/ggerganov/whisper.cpp/resolve/main/ggml-tiny.en.bin".to_owned(),
            WhisperModel::BaseEn => "https://huggingface.co/ggerganov/whisper.cpp/resolve/main/ggml-base.en.bin".to_owned(),
            WhisperModel::SmallEn => "https://huggingface.co/ggerganov/whisper.cpp/resolve/main/ggml-small.en.bin".to_owned(),
        }
    }
}

/// Status of the local transcription engine, as a consumer polls it.
#[derive(Debug, Clone)]
pub struct WhisperStatus {
    pub initialized: bool,
    pub model: Option<String>,
    pub model_path: Option<String>,
}

} // verus!
