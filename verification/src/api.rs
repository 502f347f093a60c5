//! Plain data of the hosted-service commands.
//!
//! The hosted endpoints are outside collaborators; these types only carry
//! their answers across the command interface.

use vstd::prelude::*;

verus! {

/// A chat model, as the models endpoint lists it.
#[derive(Debug, Clone)]
pub struct Model {
    pub provider: String,
    pub name: String,
    pub id: String,
    pub model: String,
    pub description: String,
    pub modality: String,
    pub is_available: bool,
}

/// Answer to a transcription request.
#[derive(Debug)]
pub struct AudioResponse {
    pub success: bool,
    pub transcription: Option<String>,
    pub error: Option<String>,
}

/// One shared prompt.
#[derive(Debug, Clone)]
pub struct PluelyPrompt {
    pub title: String,
    pub prompt: String,
    pub model_id: String,
    pub model_name: String,
}

/// Answer to a prompts listing.
#[derive(Debug)]
pub struct PluelyPromptsResponse {
    pub prompts: Vec<PluelyPrompt>,
    pub total: i32,
    pub last_updated: Option<String>,
}

/// A generated system prompt.
#[derive(Debug)]
pub struct SystemPromptResponse {
    pub prompt_name: String,
    pub system_prompt: String,
}

} // verus!
