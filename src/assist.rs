//! Assistant hooks offered to the front end. No model is wired in yet:
//! each answers with a fixed placeholder.

use vstd::prelude::*;
use vstd::string::*;

verus! {

/// A prompt for the language model, with optional context.
#[derive(Clone, Debug)]
pub struct LLMQuery {
    pub prompt: String,
    pub context: Option<String>,
}

/// The model's answer and the name of the model that gave it.
#[derive(Clone, Debug)]
pub struct LLMResponse {
    pub response: String,
    pub model: String,
}

/// What the vision model made of a screenshot.
#[derive(Clone, Debug)]
pub struct ScreenshotAnalysis {
    pub description: String,
    pub elements: Vec<String>,
    pub suggestions: Vec<String>,
}

/// Answers a query with a placeholder that repeats its prompt.
pub fn query_llm(query: &LLMQuery) -> (r: LLMResponse)
    ensures
        r.response@ == "Placeholder response for: "@ + query.prompt@,
        r.model@ == "placeholder-model"@,
{
    LLMResponse {
        response: String::from_str("Placeholder response for: ").concat(query.prompt.as_str()),
        model: String::from_str("placeholder-model"),
    }
}

/// A screen capture; none is taken yet, so it is empty.
pub fn capture_screen() -> (r: Vec<u8>)
    ensures
        r@.len() == 0,
{
    Vec::new()
}

/// An analysis of a screenshot; a fixed placeholder with no elements and no
/// suggestions, whatever the image.
pub fn analyze_screenshot(image_data: &Vec<u8>) -> (r: ScreenshotAnalysis)
    ensures
        r.description@ == "Placeholder screenshot analysis"@,
        r.elements@.len() == 0,
        r.suggestions@.len() == 0,
{
    ScreenshotAnalysis {
        description: String::from_str("Placeholder screenshot analysis"),
        elements: Vec::new(),
        suggestions: Vec::new(),
    }
}

} // verus!
