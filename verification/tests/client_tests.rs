use banana::client::GeminiClient;
use banana::config::Config;
use banana::error::BananaError;
use banana::job::{Job, JobImage, JobStatus};
use banana::params::GenerateParams;
use banana::wire::{
    ApiError, ApiErrorResponse, Candidate, Content, ContentPart, GenerateResponse, InlineData,
};

fn client() -> GeminiClient {
    let mut config = Config::default();
    config.set("api.key", "k123").unwrap();
    GeminiClient::from_config(&config).unwrap()
}

fn running(prompt: &str) -> Job {
    let mut job = Job::new_generate(GenerateParams::new(prompt));
    job.set_running(0);
    job
}

fn text(t: &str) -> ContentPart {
    ContentPart::Text { text: t.to_string() }
}

fn image(mime: &str, data: &str) -> ContentPart {
    ContentPart::InlineData {
        inlineData: InlineData { mime_type: mime.to_string(), data: data.to_string() },
    }
}

fn candidate(parts: Vec<ContentPart>, reason: Option<&str>, message: Option<&str>) -> Candidate {
    Candidate {
        content: Some(Content { parts, role: Some("model".to_string()) }),
        finish_reason: reason.map(|r| r.to_string()),
        finish_message: message.map(|m| m.to_string()),
        safety_ratings: None,
    }
}

fn response(candidates: Vec<Candidate>) -> GenerateResponse {
    GenerateResponse { candidates: Some(candidates), prompt_feedback: None, usage_metadata: None }
}

fn inline(index: usize, mime: &str, data: &str) -> JobImage {
    JobImage { index, data: Some(data.to_string()), path: None, mime_type: mime.to_string() }
}

#[test]
fn from_config_needs_an_api_key() {
    let config = Config::default();
    assert!(matches!(GeminiClient::from_config(&config), Err(BananaError::MissingApiKey)));
}

#[test]
fn endpoint_names_model_and_key() {
    assert_eq!(
        client().endpoint("gemini-3-pro-image-preview"),
        "https://generativelanguage.googleapis.com/v1beta/models/gemini-3-pro-image-preview:generateContent?key=k123"
    );
}

#[test]
fn endpoint_uses_the_configured_base_url() {
    let mut config = Config::default();
    config.set("api.key", "abc").unwrap();
    config.set("api.base_url", "http://localhost:8080/v1").unwrap();
    let client = GeminiClient::from_config(&config).unwrap();
    assert_eq!(client.endpoint("m"), "http://localhost:8080/v1/models/m:generateContent?key=abc");
}

#[test]
fn request_for_a_prompt_holds_the_prompt_alone() {
    let params = GenerateParams::new("a cosmic banana").with_aspect_ratio("16:9");
    let request = client().build_generate_request(&params);
    assert_eq!(request.contents.len(), 1);
    assert!(request.contents[0].role.is_none());
    assert_eq!(request.contents[0].parts.len(), 1);
    assert!(matches!(
        &request.contents[0].parts[0],
        ContentPart::Text { text } if text == "a cosmic banana"
    ));
    let config = request.generation_config.expect("generation config");
    assert_eq!(config.response_modalities, Some(vec!["TEXT".to_string(), "IMAGE".to_string()]));
    assert_eq!(config.image_config.expect("image config").aspect_ratio.as_deref(), Some("16:9"));
    assert!(request.safety_settings.is_none());
}

#[test]
fn request_for_an_edit_starts_with_the_reference_image() {
    let params = GenerateParams::new("add a hat")
        .with_reference_image("QUJD".to_string(), "image/jpeg".to_string());
    let request = client().build_generate_request(&params);
    assert_eq!(request.contents.len(), 1);
    let parts = &request.contents[0].parts;
    assert_eq!(parts.len(), 2);
    assert!(matches!(
        &parts[0],
        ContentPart::InlineData { inlineData }
            if inlineData.mime_type == "image/jpeg" && inlineData.data == "QUJD"
    ));
    assert!(matches!(&parts[1], ContentPart::Text { text } if text == "add a hat"));
}

#[test]
fn reference_image_without_mime_type_is_left_out() {
    let mut params = GenerateParams::new("x");
    params.reference_image = Some("QUJD".to_string());
    let request = client().build_generate_request(&params);
    assert_eq!(request.contents[0].parts.len(), 1);
    assert!(matches!(&request.contents[0].parts[0], ContentPart::Text { .. }));
}

#[test]
fn check_reply_passes_success_statuses() {
    assert_eq!(GeminiClient::check_reply(200, "{}", None), Ok(()));
    assert_eq!(GeminiClient::check_reply(204, "", None), Ok(()));
    assert_eq!(GeminiClient::check_reply(299, "", None), Ok(()));
}

#[test]
fn check_reply_reports_the_services_message() {
    let reported = ApiErrorResponse {
        error: ApiError {
            code: 429,
            message: "quota exceeded".to_string(),
            status: "RESOURCE_EXHAUSTED".to_string(),
        },
    };
    assert_eq!(
        GeminiClient::check_reply(429, "{...}", Some(reported)),
        Err(BananaError::ApiError { message: "quota exceeded".to_string() })
    );
}

#[test]
fn check_reply_falls_back_to_the_body() {
    assert_eq!(
        GeminiClient::check_reply(500, "upstream broke", None),
        Err(BananaError::ApiError { message: "upstream broke".to_string() })
    );
    assert_eq!(
        GeminiClient::check_reply(199, "early", None),
        Err(BananaError::ApiError { message: "early".to_string() })
    );
    assert_eq!(
        GeminiClient::check_reply(300, "moved", None),
        Err(BananaError::ApiError { message: "moved".to_string() })
    );
}

#[test]
fn one_image_completes_the_job() {
    let mut job = running("a cosmic banana");
    let r = client().process_response(
        &mut job,
        response(vec![candidate(vec![image("image/png", "AAAA")], Some("STOP"), None)]),
    );
    assert_eq!(r, Ok(()));
    assert_eq!(job.status, JobStatus::Completed);
    assert_eq!(job.images, vec![inline(0, "image/png", "AAAA")]);
}

#[test]
fn images_are_numbered_in_the_order_met_across_candidates() {
    let mut job = running("x");
    let r = client().process_response(
        &mut job,
        response(vec![
            candidate(
                vec![text("here"), image("image/png", "A"), text("and"), image("image/webp", "B")],
                Some("STOP"),
                None,
            ),
            candidate(vec![text("nothing")], None, None),
            candidate(vec![image("image/jpeg", "C")], Some("MAX_TOKENS"), None),
        ]),
    );
    assert_eq!(r, Ok(()));
    assert_eq!(job.status, JobStatus::Completed);
    assert_eq!(
        job.images,
        vec![
            inline(0, "image/png", "A"),
            inline(1, "image/webp", "B"),
            inline(2, "image/jpeg", "C"),
        ]
    );
}

#[test]
fn many_images_get_consecutive_indices() {
    let mut job = running("x");
    let parts: Vec<ContentPart> = (0..300).map(|i| image("image/png", &format!("D{}", i))).collect();
    let r = client().process_response(&mut job, response(vec![candidate(parts, None, None)]));
    assert_eq!(r, Ok(()));
    assert_eq!(job.images.len(), 300);
    for (i, img) in job.images.iter().enumerate() {
        assert_eq!(img.index, i);
        assert_eq!(img.data.as_deref(), Some(format!("D{}", i).as_str()));
    }
}

#[test]
fn refusal_fails_the_job_with_its_message() {
    let mut job = running("x");
    let r = client().process_response(
        &mut job,
        response(vec![candidate(vec![], Some("SAFETY"), Some("blocked"))]),
    );
    assert_eq!(r, Err(BananaError::GenerationFailed("blocked".to_string())));
    assert_eq!(job.status, JobStatus::Failed { error: "blocked".to_string() });
    assert!(job.images.is_empty());
}

#[test]
fn refusal_without_message_uses_the_standard_message() {
    let mut job = running("x");
    let r = client().process_response(
        &mut job,
        response(vec![candidate(vec![image("image/png", "A")], Some("RECITATION"), None)]),
    );
    assert_eq!(
        r,
        Err(BananaError::GenerationFailed("Image generation was refused by the API".to_string()))
    );
    assert_eq!(
        job.status,
        JobStatus::Failed { error: "Image generation was refused by the API".to_string() }
    );
    assert!(job.images.is_empty());
}

#[test]
fn refusal_keeps_earlier_images_and_ignores_what_follows() {
    let mut job = running("x");
    let r = client().process_response(
        &mut job,
        response(vec![
            candidate(vec![image("image/png", "A")], Some("STOP"), None),
            candidate(vec![image("image/png", "B")], Some("SAFETY"), Some("no")),
            candidate(vec![image("image/png", "C")], Some("STOP"), None),
            candidate(vec![], Some("OTHER"), Some("later")),
        ]),
    );
    assert_eq!(r, Err(BananaError::GenerationFailed("no".to_string())));
    assert_eq!(job.status, JobStatus::Failed { error: "no".to_string() });
    assert_eq!(job.images, vec![inline(0, "image/png", "A")]);
}

#[test]
fn finish_reason_is_compared_exactly() {
    let mut job = running("x");
    let r = client().process_response(
        &mut job,
        response(vec![candidate(vec![image("image/png", "A")], Some("stop"), Some("lower"))]),
    );
    assert_eq!(r, Err(BananaError::GenerationFailed("lower".to_string())));
}

#[test]
fn answer_without_images_fails_the_job() {
    let mut job = running("x");
    let r = client().process_response(
        &mut job,
        response(vec![candidate(vec![text("sorry")], Some("STOP"), None)]),
    );
    assert_eq!(r, Err(BananaError::GenerationFailed("No images in response".to_string())));
    assert_eq!(job.status, JobStatus::Failed { error: "No images generated".to_string() });
    assert!(job.images.is_empty());
}

#[test]
fn answer_without_candidates_fails_the_job() {
    let mut job = running("x");
    let empty = GenerateResponse { candidates: None, prompt_feedback: None, usage_metadata: None };
    assert_eq!(
        client().process_response(&mut job, empty),
        Err(BananaError::GenerationFailed("No images in response".to_string()))
    );
    assert_eq!(job.status, JobStatus::Failed { error: "No images generated".to_string() });
    let mut job = running("x");
    assert!(client().process_response(&mut job, response(vec![])).is_err());
    assert_eq!(job.status, JobStatus::Failed { error: "No images generated".to_string() });
}

#[test]
fn candidate_without_content_adds_nothing() {
    let mut job = running("x");
    let bare = Candidate {
        content: None,
        finish_reason: Some("STOP".to_string()),
        finish_message: None,
        safety_ratings: None,
    };
    let r = client().process_response(
        &mut job,
        response(vec![bare, candidate(vec![image("image/png", "A")], None, None)]),
    );
    assert_eq!(r, Ok(()));
    assert_eq!(job.images, vec![inline(0, "image/png", "A")]);
}

#[test]
fn finished_job_keeps_its_status_when_an_answer_is_read() {
    let mut job = running("x");
    job.set_cancelled();
    let r = client().process_response(
        &mut job,
        response(vec![candidate(vec![], Some("SAFETY"), Some("blocked"))]),
    );
    assert_eq!(r, Err(BananaError::GenerationFailed("blocked".to_string())));
    assert_eq!(job.status, JobStatus::Cancelled);
}

#[test]
fn error_texts_read_as_documented() {
    assert_eq!(
        BananaError::MissingApiKey.to_string(),
        "API key not configured. Set GEMINI_API_KEY environment variable or run: banana config set api.key <your-key>"
    );
    assert_eq!(BananaError::ApiError { message: "m".to_string() }.to_string(), "API error: m");
    assert_eq!(BananaError::InvalidResponse("d".to_string()).to_string(), "Invalid API response: d");
    assert_eq!(BananaError::JobNotFound("bn_1".to_string()).to_string(), "Job not found: bn_1");
    assert_eq!(BananaError::InvalidParameter("p".to_string()).to_string(), "Invalid parameter: p");
    assert_eq!(BananaError::ImageError("i".to_string()).to_string(), "Image processing error: i");
    assert_eq!(BananaError::DatabaseError("d".to_string()).to_string(), "Database error: d");
    assert_eq!(BananaError::ConfigError("c".to_string()).to_string(), "Config error: c");
    assert_eq!(BananaError::IoError("io".to_string()).to_string(), "IO error: io");
    assert_eq!(
        BananaError::GenerationFailed("g".to_string()).to_string(),
        "Generation failed: g"
    );
    assert_eq!(BananaError::Timeout.to_string(), "Request timeout");
}

#[test]
fn clone_of_error_is_equal() {
    let e = BananaError::GenerationFailed("g".to_string());
    assert_eq!(e.clone(), e);
    assert_eq!(BananaError::Timeout.clone(), BananaError::Timeout);
}
