//! The job record and its status machine.
//!
//! A job is created `Queued`, moves to `Running` and ends `Completed`,
//! `Failed` or `Cancelled`. Once it has ended, no operation changes its
//! status again.

use crate::params::{GenerateParams, GenerateParamsView};
use crate::text::{
    clone_opt, count_fitting, decimal, decimal_string, fits_in, fitting_chars, lemma_fitting_chars,
    lemma_utf8_len_add, opt_view, utf8_len,
};
use vstd::prelude::*;
use vstd::string::StrSliceExecFns;
use vstd::string::StringExecFns;

verus! {

/// The largest progress a running job reports, in percent.
pub const MAX_PROGRESS: u8 = 100;

/// How many characters of a random identifier a job id keeps.
pub const ID_DIGITS: usize = 8;

/// How many bytes the three dots take that stand for the part of a prompt
/// that a preview leaves out.
pub const ELLIPSIS_LEN: usize = 3;

/// A point in time: whole seconds since the Unix epoch and the nanoseconds
/// into that second.
#[derive(Clone, Copy, Debug, PartialEq, Eq, Structural)]
pub struct Timestamp {
    pub secs: i64,
    pub nanos: u32,
}

impl Timestamp {
    /// The current time in UTC, read with `chrono::Utc::now` and taken apart
    /// with `DateTime::timestamp` and `DateTime::timestamp_subsec_nanos`.
    /// Nothing is claimed of the seconds: the clock may be set back between
    /// two readings. The nanoseconds stay below one second, because the
    /// clock reading is built from a duration's sub-second part.
    ///
    /// `Utc::now` panics where the system clock stands before 1970; no
    /// argument decides that, so no `requires` can leave it out.
    #[verifier::external_body]
    pub(crate) fn now() -> (r: Timestamp)
        ensures
            r.nanos < 1_000_000_000,
    {
        let now = chrono::Utc::now();
        Timestamp { secs: now.timestamp(), nanos: now.timestamp_subsec_nanos() }
    }
}

/// Whether `c` is a digit of lowercase hexadecimal.
pub open spec fn is_lower_hex(c: char) -> bool {
    ('0' <= c && c <= '9') || ('a' <= c && c <= 'f')
}

/// The shape of a hyphenated identifier: thirty-two lowercase hexadecimal
/// digits in groups of eight, four, four, four and twelve, with a hyphen
/// between the groups.
pub open spec fn is_hyphenated_uuid(s: Seq<char>) -> bool {
    &&& s.len() == 36
    &&& forall|i: int|
        0 <= i < 36 ==> if i == 8 || i == 13 || i == 18 || i == 23 {
            s[i] == '-'
        } else {
            is_lower_hex(#[trigger] s[i])
        }
}

/// A random identifier from `uuid::Uuid::new_v4`, written by the `Display`
/// of `Uuid`, which is the lowercase hyphenated form. Which digits come out
/// is left open, since they are random; only the shape is stated.
///
/// `Uuid::new_v4` panics where the system's source of random numbers
/// fails; no argument decides that, so no `requires` can leave it out.
#[verifier::external_body]
fn random_uuid_text() -> (r: String)
    ensures
        is_hyphenated_uuid(r@),
{
    uuid::Uuid::new_v4().to_string()
}

/// The shape of a job id: `bn_` and eight lowercase hexadecimal digits.
pub open spec fn is_job_id(id: Seq<char>) -> bool {
    &&& id.len() == 3 + ID_DIGITS
    &&& id.subrange(0, 3) == "bn_"@
    &&& forall|i: int| 3 <= i < 3 + ID_DIGITS ==> is_lower_hex(#[trigger] id[i])
}

/// The job id made from an identifier: `bn_` and the first eight
/// characters of the identifier, or all of them where it has fewer.
pub open spec fn job_id_of(identifier: Seq<char>) -> Seq<char> {
    "bn_"@ + identifier.take(
        if identifier.len() < ID_DIGITS {
            identifier.len() as int
        } else {
            ID_DIGITS as int
        },
    )
}

/// Makes the job id from an identifier: `bn_` and the first eight
/// characters of the identifier, or all of them where it has fewer.
pub fn job_id_from(identifier: &str) -> (id: String)
    ensures
        id@ == job_id_of(identifier@),
{
    let len = identifier.unicode_len();
    let keep = if len < ID_DIGITS {
        len
    } else {
        ID_DIGITS
    };
    let mut id = String::from_str("bn_");
    id.append(identifier.substring_char(0, keep));
    id
}

/// The job id made from a hyphenated identifier has the shape of a job id.
pub proof fn lemma_job_id_of_uuid(identifier: Seq<char>)
    requires
        is_hyphenated_uuid(identifier),
    ensures
        is_job_id(job_id_of(identifier)),
{
    let id = job_id_of(identifier);
    reveal_strlit("bn_");
    assert("bn_"@.len() == 3);
    assert(id.subrange(0, 3) =~= "bn_"@);
    assert forall|i: int| 3 <= i < 3 + ID_DIGITS implies is_lower_hex(#[trigger] id[i]) by {
        assert(id[i] == identifier[i - 3]);
    }
}

/// A fresh job id, made from a random identifier.
fn fresh_job_id() -> (id: String)
    ensures
        is_job_id(id@),
{
    let uuid = random_uuid_text();
    proof {
        lemma_job_id_of_uuid(uuid@);
    }
    job_id_from(uuid.as_str())
}

/// One generated image.
#[derive(Debug, PartialEq, Eq)]
pub struct JobImage {
    /// Position of the image among those of its job, counted from zero.
    pub index: usize,
    /// Base64 encoded image data, held until the image is saved.
    pub data: Option<String>,
    /// Where the image was saved.
    pub path: Option<String>,
    /// Mime type.
    pub mime_type: String,
}

/// The mathematical value of a `JobImage`.
pub struct JobImageView {
    pub index: nat,
    pub data: Option<Seq<char>>,
    pub path: Option<Seq<char>>,
    pub mime_type: Seq<char>,
}

impl JobImageView {
    /// An image as the service hands it over: inline data, not yet saved.
    pub open spec fn inline(index: nat, data: Seq<char>, mime_type: Seq<char>) -> JobImageView {
        JobImageView { index, data: Some(data), path: None, mime_type }
    }

    /// The image once saved at `path`: the place is recorded and the inline
    /// data dropped.
    pub open spec fn saved(self, path: Seq<char>) -> JobImageView {
        JobImageView { data: None, path: Some(path), ..self }
    }

    /// Whether the image is waiting to be saved: it holds inline data and
    /// no place yet. An image that has a place is never due, whatever else
    /// it holds.
    pub open spec fn pending(self) -> bool {
        self.data is Some && self.path is None
    }

    /// Whether exactly one of inline data and saved place is present.
    pub open spec fn settled(self) -> bool {
        (self.data is Some) != (self.path is Some)
    }
}

impl View for JobImage {
    type V = JobImageView;

    open spec fn view(&self) -> JobImageView {
        JobImageView {
            index: self.index as nat,
            data: opt_view(self.data),
            path: opt_view(self.path),
            mime_type: self.mime_type@,
        }
    }
}

impl Clone for JobImage {
    fn clone(&self) -> (r: Self)
        ensures
            r@ == self@,
    {
        JobImage {
            index: self.index,
            data: clone_opt(&self.data),
            path: clone_opt(&self.path),
            mime_type: self.mime_type.clone(),
        }
    }
}

/// The views of a list of images, in order.
pub open spec fn images_view(images: Seq<JobImage>) -> Seq<JobImageView> {
    images.map_values(|image: JobImage| image@)
}

/// Copies a list of images.
pub fn clone_images(images: &Vec<JobImage>) -> (r: Vec<JobImage>)
    ensures
        images_view(r@) == images_view(images@),
{
    let mut r: Vec<JobImage> = Vec::new();
    let mut i: usize = 0;
    while i < images.len()
        invariant
            i <= images.len(),
            r@.len() == i,
            forall|k: int| 0 <= k < i ==> r@[k]@ == images@[k]@,
        decreases images.len() - i,
    {
        r.push(images[i].clone());
        i = i + 1;
    }
    assert(images_view(r@) =~= images_view(images@));
    r
}

/// The kind of work a job does.
#[derive(Debug, PartialEq, Eq)]
pub enum JobAction {
    /// Generate a new image from a prompt.
    Generate,
    /// Edit an existing image.
    Edit {
        /// Path of the source image.
        source_image: String,
    },
}

/// The mathematical value of a `JobAction`.
pub enum JobActionView {
    Generate,
    Edit { source_image: Seq<char> },
}

impl JobActionView {
    /// The word that names the action.
    pub open spec fn text(self) -> Seq<char> {
        match self {
            JobActionView::Generate => "generate"@,
            JobActionView::Edit { .. } => "edit"@,
        }
    }
}

impl View for JobAction {
    type V = JobActionView;

    open spec fn view(&self) -> JobActionView {
        match self {
            JobAction::Generate => JobActionView::Generate,
            JobAction::Edit { source_image } => JobActionView::Edit { source_image: source_image@ },
        }
    }
}

impl Clone for JobAction {
    fn clone(&self) -> (r: Self)
        ensures
            r@ == self@,
    {
        match self {
            JobAction::Generate => JobAction::Generate,
            JobAction::Edit { source_image } => JobAction::Edit {
                source_image: source_image.clone(),
            },
        }
    }
}

impl JobAction {
    /// The word that names the action: `generate` or `edit`.
    pub fn to_string(&self) -> (r: String)
        ensures
            r@ == self@.text(),
    {
        match self {
            JobAction::Generate => String::from_str("generate"),
            JobAction::Edit { .. } => String::from_str("edit"),
        }
    }
}

/// Status of a job.
#[derive(Debug, PartialEq, Eq)]
pub enum JobStatus {
    /// The job waits to be started.
    Queued,
    /// The job is being processed.
    Running {
        /// Progress in percent, from 0 to 100.
        progress: u8,
    },
    /// The job ended with its images.
    Completed,
    /// The job ended without success.
    Failed {
        /// What went wrong.
        error: String,
    },
    /// The job was given up.
    Cancelled,
}

/// The mathematical value of a `JobStatus`.
pub enum JobStatusView {
    Queued,
    Running { progress: u8 },
    Completed,
    Failed { error: Seq<char> },
    Cancelled,
}

impl JobStatusView {
    /// Whether the status is final: completed, failed or cancelled.
    pub open spec fn terminal(self) -> bool {
        self is Completed || self is Failed || self is Cancelled
    }

    /// Whether the job ended with its images.
    pub open spec fn success(self) -> bool {
        self is Completed
    }

    /// The bare name of the status, as filters use it.
    pub open spec fn name(self) -> Seq<char> {
        match self {
            JobStatusView::Queued => "queued"@,
            JobStatusView::Running { .. } => "running"@,
            JobStatusView::Completed => "completed"@,
            JobStatusView::Failed { .. } => "failed"@,
            JobStatusView::Cancelled => "cancelled"@,
        }
    }

    /// The status as shown to a reader, with progress or error.
    pub open spec fn text(self) -> Seq<char> {
        match self {
            JobStatusView::Queued => "queued"@,
            JobStatusView::Running { progress } => "running ("@ + decimal(progress as nat) + "%)"@,
            JobStatusView::Completed => "completed"@,
            JobStatusView::Failed { error } => "failed: "@ + error,
            JobStatusView::Cancelled => "cancelled"@,
        }
    }
}

impl View for JobStatus {
    type V = JobStatusView;

    open spec fn view(&self) -> JobStatusView {
        match self {
            JobStatus::Queued => JobStatusView::Queued,
            JobStatus::Running { progress } => JobStatusView::Running { progress: *progress },
            JobStatus::Completed => JobStatusView::Completed,
            JobStatus::Failed { error } => JobStatusView::Failed { error: error@ },
            JobStatus::Cancelled => JobStatusView::Cancelled,
        }
    }
}

impl Clone for JobStatus {
    fn clone(&self) -> (r: Self)
        ensures
            r@ == self@,
    {
        match self {
            JobStatus::Queued => JobStatus::Queued,
            JobStatus::Running { progress } => JobStatus::Running { progress: *progress },
            JobStatus::Completed => JobStatus::Completed,
            JobStatus::Failed { error } => JobStatus::Failed { error: error.clone() },
            JobStatus::Cancelled => JobStatus::Cancelled,
        }
    }
}

impl JobStatus {
    /// Whether the status is final.
    pub fn is_terminal(&self) -> (r: bool)
        ensures
            r == self@.terminal(),
    {
        match self {
            JobStatus::Completed => true,
            JobStatus::Failed { .. } => true,
            JobStatus::Cancelled => true,
            _ => false,
        }
    }

    /// Whether the job ended with its images.
    pub fn is_success(&self) -> (r: bool)
        ensures
            r == self@.success(),
    {
        match self {
            JobStatus::Completed => true,
            _ => false,
        }
    }

    /// The status as shown to a reader: `queued`, `running (40%)`,
    /// `completed`, `failed: ` and the error, or `cancelled`.
    pub fn to_string(&self) -> (r: String)
        ensures
            r@ == self@.text(),
    {
        match self {
            JobStatus::Queued => String::from_str("queued"),
            JobStatus::Running { progress } => {
                let mut s = String::from_str("running (");
                let digits = decimal_string(*progress as usize);
                s.append(digits.as_str());
                s.append("%)");
                s
            },
            JobStatus::Completed => String::from_str("completed"),
            JobStatus::Failed { error } => {
                let mut s = String::from_str("failed: ");
                s.append(error.as_str());
                s
            },
            JobStatus::Cancelled => String::from_str("cancelled"),
        }
    }
}

/// A generation job.
#[derive(Debug)]
pub struct Job {
    /// Unique job id, such as `bn_abc12345`.
    pub id: String,
    /// The kind of work.
    pub action: JobAction,
    /// Generation parameters.
    pub params: GenerateParams,
    /// Current status.
    pub status: JobStatus,
    /// Generated images.
    pub images: Vec<JobImage>,
    /// Model used.
    pub model: String,
    /// When the job was created.
    pub created_at: Timestamp,
    /// When the job was last changed.
    pub updated_at: Timestamp,
    /// The job this one derives from, if any.
    pub parent_id: Option<String>,
}

/// The mathematical value of a `Job`.
pub struct JobView {
    pub id: Seq<char>,
    pub action: JobActionView,
    pub params: GenerateParamsView,
    pub status: JobStatusView,
    pub images: Seq<JobImageView>,
    pub model: Seq<char>,
    pub created_at: Timestamp,
    pub updated_at: Timestamp,
    pub parent_id: Option<Seq<char>>,
}

/// `progress` held to at most `MAX_PROGRESS`.
pub open spec fn capped_progress(progress: u8) -> u8 {
    if progress <= MAX_PROGRESS {
        progress
    } else {
        MAX_PROGRESS
    }
}

/// The prompt cut down for display. Lengths count the bytes of UTF-8. A
/// prompt of at most `max_len` bytes is shown whole. Of a longer one, the
/// longest start that fits into `max_len` bytes less three is shown, and
/// three dots after it: as many whole characters as fit, never a part of
/// one.
pub open spec fn preview_of(prompt: Seq<char>, max_len: nat) -> Seq<char> {
    if utf8_len(prompt) <= max_len {
        prompt
    } else {
        prompt.take(fitting_chars(prompt, room_for_text(max_len)) as int) + "..."@
    }
}

/// The bytes that a cut prompt may take before its three dots.
pub open spec fn room_for_text(max_len: nat) -> nat {
    if max_len <= ELLIPSIS_LEN {
        0
    } else {
        (max_len - ELLIPSIS_LEN) as nat
    }
}

impl JobView {
    /// A job as it is created: queued, without images, both times equal.
    pub open spec fn created(
        params: GenerateParamsView,
        action: JobActionView,
        id: Seq<char>,
        now: Timestamp,
    ) -> JobView {
        JobView {
            id,
            action,
            params,
            status: JobStatusView::Queued,
            images: Seq::empty(),
            model: params.model,
            created_at: now,
            updated_at: now,
            parent_id: None,
        }
    }

    /// The job after a request to move it to `status` at time `now`: a job
    /// that has ended stays as it is, any other takes the status and time.
    pub open spec fn moved_to(self, status: JobStatusView, now: Timestamp) -> JobView {
        if self.status.terminal() {
            self
        } else {
            JobView { status, updated_at: now, ..self }
        }
    }

    /// The job with one more image at the end of its list, changed at `now`.
    pub open spec fn with_image(self, image: JobImageView, now: Timestamp) -> JobView {
        JobView { images: self.images.push(image), updated_at: now, ..self }
    }
}

impl View for Job {
    type V = JobView;

    open spec fn view(&self) -> JobView {
        JobView {
            id: self.id@,
            action: self.action@,
            params: self.params@,
            status: self.status@,
            images: images_view(self.images@),
            model: self.model@,
            created_at: self.created_at,
            updated_at: self.updated_at,
            parent_id: opt_view(self.parent_id),
        }
    }
}

impl Clone for Job {
    fn clone(&self) -> (r: Self)
        ensures
            r@ == self@,
    {
        Job {
            id: self.id.clone(),
            action: self.action.clone(),
            params: self.params.clone(),
            status: self.status.clone(),
            images: clone_images(&self.images),
            model: self.model.clone(),
            created_at: self.created_at,
            updated_at: self.updated_at,
            parent_id: clone_opt(&self.parent_id),
        }
    }
}

impl Job {
    /// Creates a generation job: queued, without images, under a fresh id.
    ///
    /// # Panics
    ///
    /// Where the system's source of random numbers fails, or its clock
    /// stands before 1970.
    pub fn new_generate(params: GenerateParams) -> (r: Self)
        ensures
            r@ == JobView::created(params@, JobActionView::Generate, r@.id, r@.created_at),
            is_job_id(r@.id),
    {
        let id = fresh_job_id();
        let now = Timestamp::now();
        let job = Job {
            id,
            action: JobAction::Generate,
            model: params.model.clone(),
            params,
            status: JobStatus::Queued,
            images: Vec::new(),
            created_at: now,
            updated_at: now,
            parent_id: None,
        };
        assert(job@.images =~= Seq::empty());
        job
    }

    /// Creates an edit job for the image at `source_image`: queued, without
    /// images, under a fresh id.
    ///
    /// # Panics
    ///
    /// Where the system's source of random numbers fails, or its clock
    /// stands before 1970.
    pub fn new_edit(params: GenerateParams, source_image: String) -> (r: Self)
        ensures
            r@ == JobView::created(
                params@,
                JobActionView::Edit { source_image: source_image@ },
                r@.id,
                r@.created_at,
            ),
            is_job_id(r@.id),
    {
        let id = fresh_job_id();
        let now = Timestamp::now();
        let job = Job {
            id,
            action: JobAction::Edit { source_image },
            model: params.model.clone(),
            params,
            status: JobStatus::Queued,
            images: Vec::new(),
            created_at: now,
            updated_at: now,
            parent_id: None,
        };
        assert(job@.images =~= Seq::empty());
        job
    }

    /// Creates a job for `action`: queued, without images, under a fresh
    /// id.
    ///
    /// # Panics
    ///
    /// Where the system's source of random numbers fails, or its clock
    /// stands before 1970.
    pub fn create(params: GenerateParams, action: JobAction) -> (r: Self)
        ensures
            r@ == JobView::created(params@, action@, r@.id, r@.created_at),
            is_job_id(r@.id),
    {
        match action {
            JobAction::Generate => Job::new_generate(params),
            JobAction::Edit { source_image } => Job::new_edit(params, source_image),
        }
    }

    /// Marks the job as running with the given progress, held to at most
    /// 100. A job that has ended is left as it is.
    pub fn set_running(&mut self, progress: u8)
        ensures
            final(self)@ == old(self)@.moved_to(
                JobStatusView::Running { progress: capped_progress(progress) },
                final(self)@.updated_at,
            ),
    {
        if !self.status.is_terminal() {
            let capped = if progress <= MAX_PROGRESS {
                progress
            } else {
                MAX_PROGRESS
            };
            self.status = JobStatus::Running { progress: capped };
            self.updated_at = Timestamp::now();
        }
    }

    /// Marks the job as completed. A job that has ended is left as it is.
    pub fn set_completed(&mut self)
        ensures
            final(self)@ == old(self)@.moved_to(JobStatusView::Completed, final(self)@.updated_at),
    {
        if !self.status.is_terminal() {
            self.status = JobStatus::Completed;
            self.updated_at = Timestamp::now();
        }
    }

    /// Marks the job as failed with `error`. The images collected so far
    /// stay. A job that has ended is left as it is.
    pub fn set_failed(&mut self, error: &str)
        ensures
            final(self)@ == old(self)@.moved_to(
                JobStatusView::Failed { error: error@ },
                final(self)@.updated_at,
            ),
    {
        if !self.status.is_terminal() {
            self.status = JobStatus::Failed { error: String::from_str(error) };
            self.updated_at = Timestamp::now();
        }
    }

    /// Marks the job as cancelled. A job that has ended is left as it is.
    pub fn set_cancelled(&mut self)
        ensures
            final(self)@ == old(self)@.moved_to(JobStatusView::Cancelled, final(self)@.updated_at),
    {
        if !self.status.is_terminal() {
            self.status = JobStatus::Cancelled;
            self.updated_at = Timestamp::now();
        }
    }

    /// Adds an image with inline data at the end of the job's list.
    pub fn add_image(&mut self, index: usize, data: String, mime_type: String)
        ensures
            final(self)@ == old(self)@.with_image(
                JobImageView::inline(index as nat, data@, mime_type@),
                final(self)@.updated_at,
            ),
    {
        self.images.push(JobImage { index, data: Some(data), path: None, mime_type });
        self.updated_at = Timestamp::now();
        assert(images_view(self.images@) =~= images_view(old(self).images@).push(
            JobImageView::inline(index as nat, data@, mime_type@),
        ));
    }

    /// The prompt, cut down for display to at most `max_len` bytes; a cut
    /// prompt ends in three dots. The cut falls between two characters,
    /// never inside one.
    pub fn prompt_preview(&self, max_len: usize) -> (r: String)
        ensures
            r@ == preview_of(self@.params.prompt, max_len as nat),
    {
        let prompt = self.params.prompt.as_str();
        if fits_in(prompt, max_len) {
            self.params.prompt.clone()
        } else {
            let room = if max_len <= ELLIPSIS_LEN {
                0
            } else {
                max_len - ELLIPSIS_LEN
            };
            let keep = count_fitting(prompt, room);
            let mut r = String::from_str(prompt.substring_char(0, keep));
            r.append("...");
            r
        }
    }

    /// The bare name of the job's status, as filters use it.
    pub fn status_name(&self) -> (r: &'static str)
        ensures
            r@ == self@.status.name(),
    {
        match &self.status {
            JobStatus::Queued => "queued",
            JobStatus::Running { .. } => "running",
            JobStatus::Completed => "completed",
            JobStatus::Failed { .. } => "failed",
            JobStatus::Cancelled => "cancelled",
        }
    }
}

/// A preview is the prompt itself or some of its first characters and
/// three dots, so it never holds part of a character; and it takes at most
/// `max_len` bytes, or three where `max_len` is less.
pub proof fn lemma_preview_is_short(prompt: Seq<char>, max_len: nat)
    ensures
        utf8_len(preview_of(prompt, max_len)) <= if max_len < ELLIPSIS_LEN {
            ELLIPSIS_LEN as nat
        } else {
            max_len
        },
        preview_of(prompt, max_len) == prompt || exists|k: int|
            0 <= k <= prompt.len() && preview_of(prompt, max_len) == #[trigger] prompt.take(k)
                + "..."@,
{
    if utf8_len(prompt) > max_len {
        let room = room_for_text(max_len);
        let k = fitting_chars(prompt, room);
        lemma_fitting_chars(prompt, room);
        lemma_utf8_len_add(prompt.take(k as int), "..."@);
        lemma_three_dots();
        assert(preview_of(prompt, max_len) == prompt.take(k as int) + "..."@);
    }
}

/// Three dots take three bytes.
pub proof fn lemma_three_dots()
    ensures
        utf8_len("..."@) == ELLIPSIS_LEN,
{
    reveal_strlit("...");
    assert("..."@.len() == 3);
    assert("..."@ =~= seq!['.', '.', '.']);
    reveal_with_fuel(utf8_len, 4);
    assert(seq!['.', '.', '.'].drop_last() =~= seq!['.', '.']);
    assert(seq!['.', '.'].drop_last() =~= seq!['.']);
    assert(seq!['.'].drop_last() =~= Seq::<char>::empty());
}

/// A job that has ended keeps its status whatever status it is asked to
/// take.
pub proof fn lemma_final_status_stays(job: JobView, status: JobStatusView, now: Timestamp)
    requires
        job.status.terminal(),
    ensures
        job.moved_to(status, now) == job,
{
}

} // verus!
