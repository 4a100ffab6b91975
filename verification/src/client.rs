//! The client of the generation service: what is asked of the service and
//! how its answer becomes the outcome of a job.
//!
//! Sending the request is left to the caller. The client builds the address
//! and the body, judges the status of the reply, and reads the answer into
//! the job.

use crate::config::Config;
use crate::error::{BananaError, BananaErrorView};
use crate::job::{Job, JobImageView, JobStatusView, JobView, Timestamp};
use crate::params::{GenerateParams, GenerateParamsView};
use crate::text::str_eq;
use crate::wire::{
    ApiErrorResponse, Candidate, CandidateView, Content, ContentPart, ContentView, GenerateRequest,
    GenerateRequestView, GenerateResponse, GenerationConfig, GenerationConfigView, ImageConfig,
    InlineData, PartView, parts_view,
};
use vstd::prelude::*;
use vstd::string::StringExecFns;

verus! {

/// The first status code that reports success.
pub const SUCCESS_FROM: u16 = 200;

/// The first status code past those that report success.
pub const SUCCESS_BELOW: u16 = 300;

/// An image as a response carries it: mime type and base64 data.
pub struct ImagePart {
    pub mime_type: Seq<char>,
    pub data: Seq<char>,
}

/// The images among `parts`, in order; text parts are left out.
pub open spec fn images_in(parts: Seq<PartView>) -> Seq<ImagePart>
    decreases parts.len(),
{
    if parts.len() == 0 {
        Seq::empty()
    } else {
        let before = images_in(parts.drop_last());
        match parts.last() {
            PartView::Image { mime_type, data } => before.push(ImagePart { mime_type, data }),
            PartView::Text { .. } => before,
        }
    }
}

/// The images of all `candidates`, in the order in which they are met.
pub open spec fn images_of(candidates: Seq<CandidateView>) -> Seq<ImagePart>
    decreases candidates.len(),
{
    if candidates.len() == 0 {
        Seq::empty()
    } else {
        images_of(candidates.drop_last()) + images_in(candidates.last().parts)
    }
}

/// Whether the candidate declines: it names a finish reason that is neither
/// a normal stop nor the length limit.
pub open spec fn refuses(candidate: CandidateView) -> bool {
    match candidate.finish_reason {
        Some(reason) => reason != "STOP"@ && reason != "MAX_TOKENS"@,
        None => false,
    }
}

/// The message of a refusal: the candidate's own, or a standard one.
pub open spec fn refusal_message(candidate: CandidateView) -> Seq<char> {
    match candidate.finish_message {
        Some(message) => message,
        None => "Image generation was refused by the API"@,
    }
}

/// The position of the first candidate among the first `n` that refuses.
pub open spec fn first_refusal_in(candidates: Seq<CandidateView>, n: nat) -> Option<int>
    decreases n,
{
    if n == 0 {
        None
    } else {
        match first_refusal_in(candidates, (n - 1) as nat) {
            Some(i) => Some(i),
            None => if refuses(candidates[n - 1]) {
                Some(n - 1)
            } else {
                None
            },
        }
    }
}

/// The position of the first candidate that refuses.
pub open spec fn first_refusal(candidates: Seq<CandidateView>) -> Option<int> {
    first_refusal_in(candidates, candidates.len())
}

/// The candidates that are read for images: those before the first refusal.
pub open spec fn read_candidates(candidates: Seq<CandidateView>) -> Seq<CandidateView> {
    match first_refusal(candidates) {
        Some(i) => candidates.take(i),
        None => candidates,
    }
}

/// The job images that `found` become: each with inline data and numbered
/// from zero in order.
pub open spec fn numbered(found: Seq<ImagePart>) -> Seq<JobImageView> {
    Seq::new(
        found.len(),
        |m: int| JobImageView::inline(m as nat, found[m].data, found[m].mime_type),
    )
}

/// `job` with the images `found` added at the end of its list at time `now`;
/// unchanged where nothing was found.
pub open spec fn with_found(job: JobView, found: Seq<ImagePart>, now: Timestamp) -> JobView {
    if found.len() == 0 {
        job
    } else {
        JobView { images: job.images + numbered(found), updated_at: now, ..job }
    }
}

/// The status a job is asked to take once `candidates` were read into it,
/// where `images` is how many images it then holds.
pub open spec fn status_after(candidates: Seq<CandidateView>, images: nat) -> JobStatusView {
    match first_refusal(candidates) {
        Some(i) => JobStatusView::Failed { error: refusal_message(candidates[i]) },
        None => if images == 0 {
            JobStatusView::Failed { error: "No images generated"@ }
        } else {
            JobStatusView::Completed
        },
    }
}

/// The job after the answer `candidates` was read into it, last changed at
/// `now`: the images before the first refusal are added, then the job is
/// asked to take its final status.
pub open spec fn job_after_response(
    job: JobView,
    candidates: Seq<CandidateView>,
    now: Timestamp,
) -> JobView {
    let collected = with_found(job, images_of(read_candidates(candidates)), now);
    collected.moved_to(status_after(candidates, collected.images.len()), now)
}

/// What reading the answer `candidates` into `job` reports: success where
/// no candidate refuses and the job then holds an image.
pub open spec fn response_outcome(job: JobView, candidates: Seq<CandidateView>) -> Result<
    (),
    BananaErrorView,
> {
    match first_refusal(candidates) {
        Some(i) => Err(BananaErrorView::GenerationFailed(refusal_message(candidates[i]))),
        None => if job.images.len() + images_of(candidates).len() == 0 {
            Err(BananaErrorView::GenerationFailed("No images in response"@))
        } else {
            Ok(())
        },
    }
}

/// The body of the request for `params`: one content block that holds the
/// prompt, with the reference image in front of it where there is one, and
/// a configuration that asks for text and image in the aspect ratio wanted.
pub open spec fn request_for(params: GenerateParamsView) -> GenerateRequestView {
    let prompt = PartView::Text { text: params.prompt };
    let parts = match (params.reference_image, params.reference_mime_type) {
        (Some(data), Some(mime_type)) => seq![PartView::Image { mime_type, data }, prompt],
        _ => seq![prompt],
    };
    GenerateRequestView {
        contents: seq![ContentView { parts, role: None }],
        generation_config: Some(
            GenerationConfigView {
                response_modalities: Some(seq!["TEXT"@, "IMAGE"@]),
                image_config: Some(Some(params.aspect_ratio)),
            },
        ),
        safety_settings: None,
    }
}

/// Whether a status code reports success.
pub open spec fn is_success_status(status: u16) -> bool {
    SUCCESS_FROM <= status < SUCCESS_BELOW
}

/// Once a refusal is found among the first `m` candidates, it stays the
/// first refusal however many more are looked at.
pub proof fn lemma_first_refusal_stable(candidates: Seq<CandidateView>, m: nat, n: nat)
    requires
        m <= n,
        first_refusal_in(candidates, m) is Some,
    ensures
        first_refusal_in(candidates, n) == first_refusal_in(candidates, m),
    decreases n,
{
    if m < n {
        lemma_first_refusal_stable(candidates, m, (n - 1) as nat);
    }
}

/// Where none of the first `n` candidates refuses, no refusal is found
/// among them; where one is found, it is the first that refuses.
pub proof fn lemma_first_refusal_in(candidates: Seq<CandidateView>, n: nat)
    requires
        n <= candidates.len(),
    ensures
        match first_refusal_in(candidates, n) {
            Some(i) => 0 <= i < n && refuses(candidates[i]) && forall|k: int|
                0 <= k < i ==> !refuses(#[trigger] candidates[k]),
            None => forall|k: int| 0 <= k < n ==> !refuses(#[trigger] candidates[k]),
        },
    decreases n,
{
    if n > 0 {
        lemma_first_refusal_in(candidates, (n - 1) as nat);
    }
}

/// The images of one more candidate follow those of the candidates before.
pub proof fn lemma_images_of_step(candidates: Seq<CandidateView>, i: int)
    requires
        0 <= i < candidates.len(),
    ensures
        images_of(candidates.take(i + 1)) == images_of(candidates.take(i)) + images_in(
            candidates[i].parts,
        ),
{
    assert(candidates.take(i + 1).drop_last() =~= candidates.take(i));
}

/// One more part adds its image, if it is one, to those of the parts before.
pub proof fn lemma_images_in_step(parts: Seq<PartView>, j: int)
    requires
        0 <= j < parts.len(),
    ensures
        images_in(parts.take(j + 1)) == match parts[j] {
            PartView::Image { mime_type, data } => images_in(parts.take(j)).push(
                ImagePart { mime_type, data },
            ),
            PartView::Text { .. } => images_in(parts.take(j)),
        },
{
    assert(parts.take(j + 1).drop_last() =~= parts.take(j));
}

/// Whether a refusal is found among the first `n` candidates depends on
/// those candidates alone.
pub proof fn lemma_first_refusal_of_prefix(candidates: Seq<CandidateView>, m: int, n: nat)
    requires
        n <= m <= candidates.len(),
    ensures
        first_refusal_in(candidates.take(m), n) == first_refusal_in(candidates, n),
    decreases n,
{
    if n > 0 {
        lemma_first_refusal_of_prefix(candidates, m, (n - 1) as nat);
    }
}

/// An answer in which no candidate refuses and which holds at least one
/// image completes a job that had not ended and held no image: the job
/// then holds exactly the images of the answer, numbered from zero in the
/// order in which they were met.
pub proof fn lemma_answer_completes(job: JobView, candidates: Seq<CandidateView>, now: Timestamp)
    requires
        !job.status.terminal(),
        job.images.len() == 0,
        forall|i: int| 0 <= i < candidates.len() ==> !refuses(#[trigger] candidates[i]),
        images_of(candidates).len() > 0,
    ensures
        job_after_response(job, candidates, now).status == JobStatusView::Completed,
        job_after_response(job, candidates, now).images.len() == images_of(candidates).len(),
        forall|m: int|
            0 <= m < images_of(candidates).len() ==> (#[trigger] job_after_response(
                job,
                candidates,
                now,
            ).images[m]) == JobImageView::inline(
                m as nat,
                images_of(candidates)[m].data,
                images_of(candidates)[m].mime_type,
            ),
        response_outcome(job, candidates) is Ok,
{
    lemma_first_refusal_in(candidates, candidates.len());
    assert(first_refusal(candidates) is None);
    assert(job.images + numbered(images_of(candidates)) =~= numbered(images_of(candidates)));
}

/// An answer in which a candidate refuses fails a job that had not ended,
/// with the message of the first candidate that refuses. The job gains the
/// images of the candidates before that one and no others, whatever
/// follows it in the answer.
pub proof fn lemma_refusal_fails(
    job: JobView,
    candidates: Seq<CandidateView>,
    k: int,
    now: Timestamp,
)
    requires
        !job.status.terminal(),
        0 <= k < candidates.len(),
        refuses(candidates[k]),
    ensures
        first_refusal(candidates) is Some,
        ({
            let i = first_refusal(candidates)->0;
            let after = job_after_response(job, candidates, now);
            &&& 0 <= i <= k
            &&& refuses(candidates[i])
            &&& forall|j: int| 0 <= j < i ==> !refuses(#[trigger] candidates[j])
            &&& after.status == JobStatusView::Failed { error: refusal_message(candidates[i]) }
            &&& after.images == job.images + numbered(images_of(candidates.take(i)))
            &&& after == job_after_response(job, candidates.take(i + 1), now)
            &&& response_outcome(job, candidates) == Err::<(), BananaErrorView>(
                BananaErrorView::GenerationFailed(refusal_message(candidates[i])),
            )
        }),
{
    lemma_first_refusal_in(candidates, candidates.len());
    let i = first_refusal(candidates)->0;
    let head = candidates.take(i + 1);
    lemma_first_refusal_of_prefix(candidates, i + 1, (i + 1) as nat);
    lemma_first_refusal_in(candidates, (i + 1) as nat);
    assert(first_refusal_in(candidates, (i + 1) as nat) == Some(i)) by {
        lemma_first_refusal_in(candidates, i as nat);
    }
    assert(first_refusal(head) == Some(i));
    assert(head.take(i) =~= candidates.take(i));
    assert(head[i] == candidates[i]);
    assert(job.images + numbered(images_of(candidates.take(i))) =~= with_found(
        job,
        images_of(candidates.take(i)),
        now,
    ).images);
}

/// An answer without a refusal and without an image fails a job that had
/// not ended and held no image.
pub proof fn lemma_empty_answer_fails(job: JobView, candidates: Seq<CandidateView>, now: Timestamp)
    requires
        !job.status.terminal(),
        job.images.len() == 0,
        forall|i: int| 0 <= i < candidates.len() ==> !refuses(#[trigger] candidates[i]),
        images_of(candidates).len() == 0,
    ensures
        job_after_response(job, candidates, now).status == (JobStatusView::Failed {
            error: "No images generated"@,
        }),
        job_after_response(job, candidates, now).images.len() == 0,
        response_outcome(job, candidates) == Err::<(), BananaErrorView>(
            BananaErrorView::GenerationFailed("No images in response"@),
        ),
{
    lemma_first_refusal_in(candidates, candidates.len());
}

/// Reading an answer never changes the status of a job that has ended.
pub proof fn lemma_answer_keeps_final_status(
    job: JobView,
    candidates: Seq<CandidateView>,
    now: Timestamp,
)
    requires
        job.status.terminal(),
    ensures
        job_after_response(job, candidates, now).status == job.status,
{
}

/// The request of an edit starts with the reference image; the prompt
/// follows it. Any other request holds the prompt alone.
pub proof fn lemma_reference_image_leads(params: GenerateParamsView)
    ensures
        request_for(params).contents.len() == 1,
        match (params.reference_image, params.reference_mime_type) {
            (Some(data), Some(mime_type)) => request_for(params).contents[0].parts == seq![
                PartView::Image { mime_type, data },
                PartView::Text { text: params.prompt },
            ],
            _ => request_for(params).contents[0].parts == seq![
                PartView::Text { text: params.prompt },
            ],
        },
{
}

/// Client of the generation service.
pub struct GeminiClient {
    api_key: String,
    base_url: String,
}

/// The mathematical value of a `GeminiClient`.
pub struct GeminiClientView {
    pub api_key: Seq<char>,
    pub base_url: Seq<char>,
}

impl GeminiClientView {
    /// The address that generation requests for `model` are sent to.
    pub open spec fn endpoint(self, model: Seq<char>) -> Seq<char> {
        self.base_url + "/models/"@ + model + ":generateContent?key="@ + self.api_key
    }
}

impl View for GeminiClient {
    type V = GeminiClientView;

    closed spec fn view(&self) -> GeminiClientView {
        GeminiClientView { api_key: self.api_key@, base_url: self.base_url@ }
    }
}

/// Whether the candidate declines, and with which message.
fn refusal_of(candidate: &Candidate) -> (r: Option<String>)
    ensures
        match r {
            Some(message) => refuses(candidate@) && message@ == refusal_message(candidate@),
            None => !refuses(candidate@),
        },
{
    match &candidate.finish_reason {
        Some(reason) => {
            if !str_eq(reason.as_str(), "STOP") && !str_eq(reason.as_str(), "MAX_TOKENS") {
                match &candidate.finish_message {
                    Some(message) => Some(message.clone()),
                    None => Some(String::from_str("Image generation was refused by the API")),
                }
            } else {
                None
            }
        },
        None => None,
    }
}

impl GeminiClient {
    /// A client for the service that `config` names. Fails exactly where no
    /// API key is configured.
    pub fn from_config(config: &Config) -> (r: Result<Self, BananaError>)
        ensures
            match r {
                Ok(client) => config@.api.key == Some(client@.api_key) && client@.base_url
                    == config@.api.base_url,
                Err(e) => config@.api.key is None && e@ == BananaErrorView::MissingApiKey,
            },
    {
        match config.api_key() {
            Some(key) => Ok(
                GeminiClient { api_key: String::from_str(key), base_url: config.api.base_url.clone() },
            ),
            None => Err(BananaError::MissingApiKey),
        }
    }

    /// The address that generation requests for `model` are sent to.
    pub fn endpoint(&self, model: &str) -> (r: String)
        ensures
            r@ == self@.endpoint(model@),
    {
        let mut url = self.base_url.clone();
        url.append("/models/");
        url.append(model);
        url.append(":generateContent?key=");
        url.append(self.api_key.as_str());
        url
    }

    /// Builds the body of the request for `params`.
    pub fn build_generate_request(&self, params: &GenerateParams) -> (r: GenerateRequest)
        ensures
            r@ == request_for(params@),
    {
        let mut parts: Vec<ContentPart> = Vec::new();
        match (&params.reference_image, &params.reference_mime_type) {
            (Some(data), Some(mime_type)) => {
                parts.push(
                    ContentPart::InlineData {
                        inlineData: InlineData { mime_type: mime_type.clone(), data: data.clone() },
                    },
                );
            },
            _ => {},
        }
        parts.push(ContentPart::Text { text: params.prompt.clone() });
        let content = Content { parts, role: None };
        let mut contents: Vec<Content> = Vec::new();
        contents.push(content);
        let mut modalities: Vec<String> = Vec::new();
        modalities.push(String::from_str("TEXT"));
        modalities.push(String::from_str("IMAGE"));
        let request = GenerateRequest {
            contents,
            generation_config: Some(
                GenerationConfig {
                    response_modalities: Some(modalities),
                    image_config: Some(
                        ImageConfig { aspect_ratio: Some(params.aspect_ratio.clone()) },
                    ),
                },
            ),
            safety_settings: None,
        };
        proof {
            let want = request_for(params@);
            assert(request@.contents.len() == 1);
            assert(request@.contents[0].parts =~= want.contents[0].parts);
            assert(request@.contents =~= want.contents);
            assert(request@.generation_config->0.response_modalities->0 =~= seq![
                "TEXT"@,
                "IMAGE"@,
            ]);
        }
        request
    }

    /// Judges the status of a reply. A status that reports success passes.
    /// Any other gives an API error with the message of the error the
    /// service reported, or with the whole body where it reported none that
    /// could be read.
    pub fn check_reply(status: u16, body: &str, reported: Option<ApiErrorResponse>) -> (r: Result<
        (),
        BananaError,
    >)
        ensures
            match r {
                Ok(()) => is_success_status(status),
                Err(e) => !is_success_status(status) && e@ == (BananaErrorView::ApiError {
                    message: match reported {
                        Some(response) => response.error.message@,
                        None => body@,
                    },
                }),
            },
    {
        if SUCCESS_FROM <= status && status < SUCCESS_BELOW {
            Ok(())
        } else {
            let message = match reported {
                Some(response) => response.error.message,
                None => String::from_str(body),
            };
            Err(BananaError::ApiError { message })
        }
    }

    /// Reads the answer of the service into the job. Candidates are read in
    /// order. The first that declines fails the job with its message and
    /// ends the reading; what came before it stays. Of the others every
    /// image part becomes the job's next image, numbered from zero in the
    /// order met. A job left without any image fails; any other completes.
    /// A job that had ended before keeps its status.
    pub fn process_response(&self, job: &mut Job, response: GenerateResponse) -> (r: Result<
        (),
        BananaError,
    >)
        ensures
            final(job)@ == job_after_response(old(job)@, response@, final(job)@.updated_at),
            match r {
                Ok(()) => response_outcome(old(job)@, response@) is Ok,
                Err(e) => response_outcome(old(job)@, response@) == Err::<(), BananaErrorView>(e@),
            },
    {
        let ghost all = response@;
        let candidates = match response.candidates {
            Some(candidates) => candidates,
            None => Vec::new(),
        };
        let ghost read = candidates@;
        assert(all =~= read.map_values(|c: Candidate| c@));
        let mut image_index: usize = 0;
        for candidate in it: candidates.into_iter()
            invariant
                it.seq() == read,
                all == response@,
                all == read.map_values(|c: Candidate| c@),
                first_refusal_in(all, it.index() as nat) is None,
                image_index == images_of(all.take(it.index() as int)).len(),
                job@ == with_found(old(job)@, images_of(all.take(it.index() as int)), job@.updated_at),
        {
            let ghost i = it.index() as int;
            assert(all[i] == candidate@);
            proof {
                lemma_images_of_step(all, i);
            }
            match refusal_of(&candidate) {
                Some(message) => {
                    job.set_failed(message.as_str());
                    proof {
                        assert(first_refusal_in(all, (i + 1) as nat) == Some(i));
                        lemma_first_refusal_stable(all, (i + 1) as nat, all.len());
                    }
                    return Err(BananaError::GenerationFailed(message));
                },
                None => {},
            }
            let ghost before = images_of(all.take(i));
            match candidate.content {
                Some(content) => {
                    let ghost parts = all[i].parts;
                    let ghost held = content.parts@;
                    for part in at: content.parts.into_iter()
                        invariant
                            at.seq() == held,
                            parts == parts_view(held),
                            image_index == (before + images_in(parts.take(at.index() as int))).len(),
                            job@ == with_found(
                                old(job)@,
                                before + images_in(parts.take(at.index() as int)),
                                job@.updated_at,
                            ),
                    {
                        let ghost j = at.index() as int;
                        proof {
                            lemma_images_in_step(parts, j);
                        }
                        let ghost found = before + images_in(parts.take(j));
                        assert(parts[j] == part@);
                        match part {
                            ContentPart::InlineData { inlineData } => {
                                let ghost image = ImagePart {
                                    mime_type: inlineData.mime_type@,
                                    data: inlineData.data@,
                                };
                                job.add_image(image_index, inlineData.data, inlineData.mime_type);
                                proof {
                                    assert(before + images_in(parts.take(j + 1)) =~= found.push(image));
                                    assert(numbered(found.push(image)) =~= numbered(found).push(
                                        JobImageView::inline(
                                            image_index as nat,
                                            image.data,
                                            image.mime_type,
                                        ),
                                    ));
                                    assert(job@.images =~= old(job)@.images + numbered(
                                        found.push(image),
                                    ));
                                    assert(job.images.len() == job@.images.len());
                                }
                                image_index = image_index + 1;
                            },
                            ContentPart::Text { .. } => {},
                        }
                    }
                    assert(parts.take(parts.len() as int) =~= parts);
                },
                None => {
                    assert(images_in(all[i].parts) =~= Seq::empty());
                    assert(before + images_in(all[i].parts) =~= before);
                },
            }
        }
        assert(all.take(all.len() as int) =~= all);
        assert(job.images@.len() == job@.images.len());
        if job.images.is_empty() {
            job.set_failed("No images generated");
            return Err(BananaError::GenerationFailed(String::from_str("No images in response")));
        }
        job.set_completed();
        Ok(())
    }
}

} // verus!
