//! The shapes of what is sent to the generation service and of what it
//! answers.

use crate::text::opt_view;
use vstd::prelude::*;

verus! {

/// The views of a list of strings, in order.
pub open spec fn strings_view(strings: Seq<String>) -> Seq<Seq<char>> {
    strings.map_values(|s: String| s@)
}

/// Inline image data.
#[derive(Debug)]
pub struct InlineData {
    pub mime_type: String,
    /// The image, base64 encoded.
    pub data: String,
}

/// One part of a content block: text or an image.
#[allow(non_snake_case)]
#[derive(Debug)]
pub enum ContentPart {
    Text { text: String },
    InlineData { inlineData: InlineData },
}

/// The mathematical value of a `ContentPart`.
pub enum PartView {
    Text { text: Seq<char> },
    Image { mime_type: Seq<char>, data: Seq<char> },
}

impl View for ContentPart {
    type V = PartView;

    open spec fn view(&self) -> PartView {
        match self {
            ContentPart::Text { text } => PartView::Text { text: text@ },
            ContentPart::InlineData { inlineData } => PartView::Image {
                mime_type: inlineData.mime_type@,
                data: inlineData.data@,
            },
        }
    }
}

/// The views of a list of parts, in order.
pub open spec fn parts_view(parts: Seq<ContentPart>) -> Seq<PartView> {
    parts.map_values(|part: ContentPart| part@)
}

/// A content block: a message of the user or of the model.
#[derive(Debug)]
pub struct Content {
    pub parts: Vec<ContentPart>,
    pub role: Option<String>,
}

/// The mathematical value of a `Content`.
pub struct ContentView {
    pub parts: Seq<PartView>,
    pub role: Option<Seq<char>>,
}

impl View for Content {
    type V = ContentView;

    open spec fn view(&self) -> ContentView {
        ContentView { parts: parts_view(self.parts@), role: opt_view(self.role) }
    }
}

/// Image-specific configuration.
#[derive(Debug)]
pub struct ImageConfig {
    pub aspect_ratio: Option<String>,
}

/// Generation configuration.
#[derive(Debug)]
pub struct GenerationConfig {
    pub response_modalities: Option<Vec<String>>,
    pub image_config: Option<ImageConfig>,
}

/// The mathematical value of a `GenerationConfig`.
pub struct GenerationConfigView {
    pub response_modalities: Option<Seq<Seq<char>>>,
    /// The image configuration, if there is one, and in it the aspect
    /// ratio, if there is one.
    pub image_config: Option<Option<Seq<char>>>,
}

impl View for GenerationConfig {
    type V = GenerationConfigView;

    open spec fn view(&self) -> GenerationConfigView {
        GenerationConfigView {
            response_modalities: match self.response_modalities {
                Some(m) => Some(strings_view(m@)),
                None => None,
            },
            image_config: match self.image_config {
                Some(c) => Some(opt_view(c.aspect_ratio)),
                None => None,
            },
        }
    }
}

/// A safety setting.
#[derive(Debug)]
pub struct SafetySetting {
    pub category: String,
    pub threshold: String,
}

/// The body of a generation request.
#[derive(Debug)]
pub struct GenerateRequest {
    pub contents: Vec<Content>,
    pub generation_config: Option<GenerationConfig>,
    pub safety_settings: Option<Vec<SafetySetting>>,
}

/// The mathematical value of a `GenerateRequest`.
pub struct GenerateRequestView {
    pub contents: Seq<ContentView>,
    pub generation_config: Option<GenerationConfigView>,
    /// The safety settings, each as its category and threshold.
    pub safety_settings: Option<Seq<(Seq<char>, Seq<char>)>>,
}

impl View for GenerateRequest {
    type V = GenerateRequestView;

    open spec fn view(&self) -> GenerateRequestView {
        GenerateRequestView {
            contents: self.contents@.map_values(|c: Content| c@),
            generation_config: match self.generation_config {
                Some(c) => Some(c@),
                None => None,
            },
            safety_settings: match self.safety_settings {
                Some(s) => Some(s@.map_values(|s: SafetySetting| (s.category@, s.threshold@))),
                None => None,
            },
        }
    }
}

/// Safety rating for content.
#[derive(Debug)]
pub struct SafetyRating {
    pub category: String,
    pub probability: String,
}

/// One alternative answer of the service.
#[derive(Debug)]
pub struct Candidate {
    pub content: Option<Content>,
    pub finish_reason: Option<String>,
    pub finish_message: Option<String>,
    pub safety_ratings: Option<Vec<SafetyRating>>,
}

/// What the library reads of a `Candidate`: its parts, none where it has no
/// content, and how and why it finished.
pub struct CandidateView {
    pub parts: Seq<PartView>,
    pub finish_reason: Option<Seq<char>>,
    pub finish_message: Option<Seq<char>>,
}

impl View for Candidate {
    type V = CandidateView;

    open spec fn view(&self) -> CandidateView {
        CandidateView {
            parts: match self.content {
                Some(content) => parts_view(content.parts@),
                None => Seq::empty(),
            },
            finish_reason: opt_view(self.finish_reason),
            finish_message: opt_view(self.finish_message),
        }
    }
}

/// Feedback about the prompt.
#[derive(Debug)]
pub struct PromptFeedback {
    pub block_reason: Option<String>,
    pub safety_ratings: Option<Vec<SafetyRating>>,
}

/// Token usage.
#[derive(Debug)]
pub struct UsageMetadata {
    pub prompt_token_count: Option<i32>,
    pub candidates_token_count: Option<i32>,
    pub total_token_count: Option<i32>,
}

/// The answer to a generation request.
#[derive(Debug)]
pub struct GenerateResponse {
    pub candidates: Option<Vec<Candidate>>,
    pub prompt_feedback: Option<PromptFeedback>,
    pub usage_metadata: Option<UsageMetadata>,
}

impl View for GenerateResponse {
    /// The candidates in order; none where the answer names none.
    type V = Seq<CandidateView>;

    open spec fn view(&self) -> Seq<CandidateView> {
        match self.candidates {
            Some(candidates) => candidates@.map_values(|c: Candidate| c@),
            None => Seq::empty(),
        }
    }
}

/// The details of an error the service reports.
#[derive(Debug)]
pub struct ApiError {
    pub code: i32,
    pub message: String,
    pub status: String,
}

/// The body of an error answer.
#[derive(Debug)]
pub struct ApiErrorResponse {
    pub error: ApiError,
}

} // verus!
