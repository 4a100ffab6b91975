//! The life of a job as a whole: every way in which the library changes a
//! job, and what holds of a job whatever is done to it.

use crate::client::{
    GeminiClientView, first_refusal, images_of, job_after_response, lemma_answer_completes,
    lemma_first_refusal_in, lemma_refusal_fails, refusal_message, refuses,
};
use crate::download::{
    DownloadStepView, Places, after_saving, base64_decoded, download_step, lemma_next_pending,
    lemma_saving_touches_the_saveable_only, saveable, with_saved,
};
use crate::error::BananaErrorView;
use crate::job::{JobImageView, JobStatusView, JobView, Timestamp, capped_progress};
use crate::pipeline::{Phase, PipelineActionView, PipelineEventView, PipelineView};
use crate::wire::CandidateView;
use vstd::prelude::*;

verus! {

/// One change that the library makes to a job.
pub enum JobOp {
    /// `Job::set_running`.
    SetRunning { progress: u8 },
    /// `Job::set_completed`.
    SetCompleted,
    /// `Job::set_failed`.
    SetFailed { error: Seq<char> },
    /// `Job::set_cancelled`.
    SetCancelled,
    /// `Job::add_image`.
    AddImage { index: nat, data: Seq<char>, mime_type: Seq<char> },
    /// `GeminiClient::process_response`.
    Respond { candidates: Seq<CandidateView> },
    /// `record_download`.
    RecordDownload { position: int, path: Seq<char> },
}

/// The job after one change made at time `now`.
pub open spec fn applied(job: JobView, op: JobOp, now: Timestamp) -> JobView {
    match op {
        JobOp::SetRunning { progress } => job.moved_to(
            JobStatusView::Running { progress: capped_progress(progress) },
            now,
        ),
        JobOp::SetCompleted => job.moved_to(JobStatusView::Completed, now),
        JobOp::SetFailed { error } => job.moved_to(JobStatusView::Failed { error }, now),
        JobOp::SetCancelled => job.moved_to(JobStatusView::Cancelled, now),
        JobOp::AddImage { index, data, mime_type } => job.with_image(
            JobImageView::inline(index, data, mime_type),
            now,
        ),
        JobOp::Respond { candidates } => job_after_response(job, candidates, now),
        JobOp::RecordDownload { position, path } => with_saved(job, position, path, now),
    }
}

/// The job after a sequence of changes, each made at its own time.
pub open spec fn applied_all(job: JobView, ops: Seq<(JobOp, Timestamp)>) -> JobView
    decreases ops.len(),
{
    if ops.len() == 0 {
        job
    } else {
        applied(applied_all(job, ops.drop_last()), ops.last().0, ops.last().1)
    }
}

/// No change moves a job that has ended to another status.
pub proof fn lemma_change_keeps_final_status(job: JobView, op: JobOp, now: Timestamp)
    requires
        job.status.terminal(),
    ensures
        applied(job, op, now).status == job.status,
{
}

/// No sequence of changes moves a job that has ended to another status.
pub proof fn lemma_final_status_is_final(job: JobView, ops: Seq<(JobOp, Timestamp)>)
    requires
        job.status.terminal(),
    ensures
        applied_all(job, ops).status == job.status,
    decreases ops.len(),
{
    if ops.len() > 0 {
        lemma_final_status_is_final(job, ops.drop_last());
        lemma_change_keeps_final_status(
            applied_all(job, ops.drop_last()),
            ops.last().0,
            ops.last().1,
        );
    }
}

/// No change takes an image from a job or alters the order of its images:
/// the job holds at least as many images after a change as before.
pub proof fn lemma_change_keeps_images(job: JobView, op: JobOp, now: Timestamp)
    ensures
        applied(job, op, now).images.len() >= job.images.len(),
        applied(job, op, now).id == job.id,
        applied(job, op, now).created_at == job.created_at,
{
}

/// Looking for the next image to save changes nothing of the job.
pub proof fn lemma_saving_keeps_job(run: PipelineView, from: int)
    ensures
        run.saving_from(from).0.job == run.job,
    decreases run.job.images.len() - from,
{
    match download_step(run.job, from) {
        DownloadStepView::Undecodable { position, error } => {
            if from <= position < run.job.images.len() {
                lemma_saving_keeps_job(
                    PipelineView { download_errors: run.download_errors.push(error), ..run },
                    position as int + 1,
                );
            }
        },
        _ => {},
    }
}

/// No step of the pipeline moves a job that has ended to another status,
/// whatever event it is given.
pub proof fn lemma_step_keeps_final_status(
    run: PipelineView,
    event: PipelineEventView,
    now: Timestamp,
)
    requires
        run.job.status.terminal(),
    ensures
        run.step(event, now).0.job.status == run.job.status,
{
    lemma_saving_keeps_job(run, 0);
    match (run.phase, event) {
        (Phase::Saving { position }, PipelineEventView::Written { path }) => {
            if position < run.job.images.len() {
                lemma_saving_keeps_job(
                    PipelineView {
                        job: with_saved(run.job, position as int, path, now),
                        saved: run.saved.push(path),
                        ..run
                    },
                    position as int + 1,
                );
            }
        },
        (
            Phase::Saving { position },
            PipelineEventView::WriteFailed { message },
        ) => {
            if position < run.job.images.len() {
                lemma_saving_keeps_job(
                    PipelineView {
                        download_errors: run.download_errors.push(
                            BananaErrorView::IoError(message),
                        ),
                        ..run
                    },
                    position as int + 1,
                );
            }
        },
        _ => {},
    }
}

/// Whether every image of the job holds exactly one of inline data and
/// saved place.
pub open spec fn images_settled(job: JobView) -> bool {
    forall|i: int| 0 <= i < job.images.len() ==> (#[trigger] job.images[i]).settled()
}

/// A job is created with its images settled, and no change unsettles them:
/// an image comes with inline data alone, and saving it trades the data for
/// the place.
pub proof fn lemma_change_keeps_images_settled(job: JobView, op: JobOp, now: Timestamp)
    requires
        images_settled(job),
    ensures
        images_settled(applied(job, op, now)),
{
    let after = applied(job, op, now);
    assert forall|i: int| 0 <= i < after.images.len() implies (#[trigger] after.images[i]).settled() by {
        if i < job.images.len() {
            assert(job.images[i].settled());
        }
    }
}

/// The event with which a caller answers the request to write the image at
/// `position`: where it was written, or `complaint` where writing failed.
pub open spec fn write_answer(places: Places, position: int, complaint: Seq<char>) -> PipelineEventView {
    if places.dom().contains(position) {
        PipelineEventView::Written { path: places[position].0 }
    } else {
        PipelineEventView::WriteFailed { message: complaint }
    }
}

/// The run once the caller has answered every request to write an image,
/// at most `budget` of them.
pub open spec fn saved_through(
    run: PipelineView,
    places: Places,
    complaint: Seq<char>,
    budget: nat,
) -> PipelineView
    decreases budget,
{
    match run.phase {
        Phase::Saving { position } => if budget > 0 && position < run.job.images.len() {
            saved_through(
                run.step(write_answer(places, position as int, complaint), places[position as int].1).0,
                places,
                complaint,
                (budget - 1) as nat,
            )
        } else {
            run
        },
        _ => run,
    }
}

/// Saving the images through the pipeline is one pass over them: when the
/// caller has answered every request to write, the run waits to store the
/// job a last time, and the job is the one that a pass from `from` on
/// leaves.
pub proof fn lemma_pipeline_saves_in_one_pass(
    run: PipelineView,
    from: int,
    places: Places,
    complaint: Seq<char>,
    budget: nat,
)
    requires
        0 <= from,
        budget >= run.job.images.len() - from,
        run.job.images.len() <= usize::MAX,
    ensures
        saved_through(run.saving_from(from).0, places, complaint, budget).job == after_saving(
            run.job,
            places,
            from,
        ),
        saved_through(run.saving_from(from).0, places, complaint, budget).phase == Phase::Closing,
        saved_through(run.saving_from(from).0, places, complaint, budget).failure == run.failure,
    decreases run.job.images.len() - from,
{
    lemma_next_pending(run.job.images, from);
    match download_step(run.job, from) {
        DownloadStepView::Done => {},
        DownloadStepView::Write { position, file_name, bytes } => {
            let i = position as int;
            let waiting = run.saving_from(from).0;
            assert(waiting.phase == Phase::Saving { position: i as usize });
            assert(i as usize == i);
            if places.dom().contains(i) {
                let next = PipelineView {
                    job: with_saved(waiting.job, i, places[i].0, places[i].1),
                    saved: waiting.saved.push(places[i].0),
                    ..waiting
                };
                lemma_pipeline_saves_in_one_pass(next, i + 1, places, complaint, (budget - 1) as nat);
            } else {
                let next = PipelineView {
                    download_errors: waiting.download_errors.push(
                        BananaErrorView::IoError(complaint),
                    ),
                    ..waiting
                };
                lemma_pipeline_saves_in_one_pass(next, i + 1, places, complaint, (budget - 1) as nat);
            }
        },
        DownloadStepView::Undecodable { position, error } => {
            let next = PipelineView { download_errors: run.download_errors.push(error), ..run };
            lemma_pipeline_saves_in_one_pass(next, position as int + 1, places, complaint, budget);
        },
    }
}

/// Looking for the next image to save ends in a request to write it or
/// to store the job, and leaves the failure of the run as it is.
pub proof fn lemma_saving_asks_to_write_or_store(run: PipelineView, from: int)
    requires
        0 <= from,
    ensures
        run.saving_from(from).1 is Write || run.saving_from(from).1 is Update,
        run.saving_from(from).0.failure == run.failure,
        run.saving_from(from).0.phase != Phase::Finished,
    decreases run.job.images.len() - from,
{
    lemma_next_pending(run.job.images, from);
    match download_step(run.job, from) {
        DownloadStepView::Undecodable { position, error } => {
            lemma_saving_asks_to_write_or_store(
                PipelineView { download_errors: run.download_errors.push(error), ..run },
                position as int + 1,
            );
        },
        _ => {},
    }
}

/// Whenever a step changes the status of the job, the next thing the
/// caller is asked to do is to store the job.
pub proof fn lemma_status_change_is_stored(
    run: PipelineView,
    event: PipelineEventView,
    now: Timestamp,
)
    ensures
        run.step(event, now).0.job.status != run.job.status ==> run.step(event, now).1
            == PipelineActionView::Update,
{
    lemma_saving_keeps_job(run, 0);
    match (run.phase, event) {
        (Phase::Saving { position }, PipelineEventView::Written { path }) => {
            if position < run.job.images.len() {
                lemma_saving_keeps_job(
                    PipelineView {
                        job: with_saved(run.job, position as int, path, now),
                        saved: run.saved.push(path),
                        ..run
                    },
                    position as int + 1,
                );
            }
        },
        (Phase::Saving { position }, PipelineEventView::WriteFailed { message }) => {
            if position < run.job.images.len() {
                lemma_saving_keeps_job(
                    PipelineView {
                        download_errors: run.download_errors.push(BananaErrorView::IoError(message)),
                        ..run
                    },
                    position as int + 1,
                );
            }
        },
        _ => {},
    }
}

/// A run ends only on an answer of the store. Where the store took the
/// job, the job that the run ends with is the job that was stored, and the
/// failure of the run is the one the stored job reflects; where the store
/// failed, the job in memory is untouched and the failure is that of the
/// store.
pub proof fn lemma_run_ends_on_the_store(run: PipelineView, event: PipelineEventView, now: Timestamp)
    requires
        run.step(event, now).1 == PipelineActionView::Finish,
    ensures
        event is Stored || event is StoreFailed,
        run.step(event, now).0.phase == Phase::Finished,
        run.step(event, now).0.job == run.job,
        event is Stored ==> run.step(event, now).0.failure == run.failure,
        event matches PipelineEventView::StoreFailed { message } ==> run.step(event, now).0.failure
            == Some(BananaErrorView::DatabaseError(message)),
{
    lemma_saving_asks_to_write_or_store(run, 0);
    match (run.phase, event) {
        (Phase::Saving { position }, PipelineEventView::Written { path }) => {
            if position < run.job.images.len() {
                lemma_saving_asks_to_write_or_store(
                    PipelineView {
                        job: with_saved(run.job, position as int, path, now),
                        saved: run.saved.push(path),
                        ..run
                    },
                    position as int + 1,
                );
            }
        },
        (Phase::Saving { position }, PipelineEventView::WriteFailed { message }) => {
            if position < run.job.images.len() {
                lemma_saving_asks_to_write_or_store(
                    PipelineView {
                        download_errors: run.download_errors.push(BananaErrorView::IoError(message)),
                        ..run
                    },
                    position as int + 1,
                );
            }
        },
        _ => {},
    }
}

/// A failure of the service or of its answer is never handed out before
/// the failed job was offered to the store: the step that notes the
/// failure asks for the job to be stored.
pub proof fn lemma_failure_is_stored_first(
    run: PipelineView,
    event: PipelineEventView,
    now: Timestamp,
)
    requires
        run.phase == Phase::Calling,
        event is Answered || event is ServiceFailed,
    ensures
        run.step(event, now).1 == PipelineActionView::Update,
        run.step(event, now).0.phase == Phase::Settling,
        run.step(event, now).0.failure is Some && !run.job.status.terminal() ==> run.step(
            event,
            now,
        ).0.job.status is Failed,
{
    match event {
        PipelineEventView::Answered { response } => {
            lemma_first_refusal_in(response, response.len());
        },
        _ => {},
    }
}

/// A run up to the answer of the service, where the store takes the job
/// each time: the job is inserted, set running at `started`, stored, and the
/// answer `candidates` is read into it at `answered`.
pub open spec fn run_to_answer(
    client: GeminiClientView,
    job: JobView,
    download: bool,
    candidates: Seq<CandidateView>,
    started: Timestamp,
    answered: Timestamp,
) -> PipelineView {
    let inserted = PipelineView::started(client, job, download).step(
        PipelineEventView::Stored,
        started,
    ).0;
    let called = inserted.step(PipelineEventView::Stored, started).0;
    called.step(PipelineEventView::Answered { response: candidates }, answered).0
}

/// A run to its end, where the store takes the job each time and `places`
/// tells where each image is written.
pub open spec fn run_to_end(
    client: GeminiClientView,
    job: JobView,
    download: bool,
    candidates: Seq<CandidateView>,
    places: Places,
    complaint: Seq<char>,
    started: Timestamp,
    answered: Timestamp,
) -> PipelineView {
    let settled = run_to_answer(client, job, download, candidates, started, answered).step(
        PipelineEventView::Stored,
        answered,
    ).0;
    let saved = saved_through(settled, places, complaint, settled.job.images.len());
    if saved.phase == Phase::Closing {
        saved.step(PipelineEventView::Stored, answered).0
    } else {
        saved
    }
}

/// A run for a fresh job whose answer holds images and no refusal, with
/// every image decodable and written, ends without a failure: the job is
/// completed and holds exactly the images of the answer, numbered from
/// zero in the order met, each saved at its place and without inline data.
pub proof fn lemma_run_completes_and_saves(
    client: GeminiClientView,
    job: JobView,
    candidates: Seq<CandidateView>,
    places: Places,
    complaint: Seq<char>,
    started: Timestamp,
    answered: Timestamp,
)
    requires
        job.status == JobStatusView::Queued,
        job.images.len() == 0,
        forall|i: int| 0 <= i < candidates.len() ==> !refuses(#[trigger] candidates[i]),
        0 < images_of(candidates).len() <= usize::MAX,
        forall|m: int|
            0 <= m < images_of(candidates).len() ==> base64_decoded(
                (#[trigger] images_of(candidates)[m]).data,
            ) is Some && places.dom().contains(m),
    ensures
        ({
            let end = run_to_end(client, job, true, candidates, places, complaint, started, answered);
            let found = images_of(candidates);
            &&& end.phase == Phase::Finished
            &&& end.failure is None
            &&& end.job.status == JobStatusView::Completed
            &&& end.job.images.len() == found.len()
            &&& forall|m: int|
                0 <= m < found.len() ==> (#[trigger] end.job.images[m]) == (JobImageView {
                    index: m as nat,
                    data: None,
                    path: Some(places[m].0),
                    mime_type: found[m].mime_type,
                })
        }),
{
    let inserted = PipelineView::started(client, job, true).step(PipelineEventView::Stored, started).0;
    let called = inserted.step(PipelineEventView::Stored, started).0;
    lemma_answer_completes(called.job, candidates, answered);
    let read = run_to_answer(client, job, true, candidates, started, answered);
    let found = images_of(candidates);
    assert(read.job.images.len() == found.len());
    lemma_pipeline_saves_in_one_pass(read, 0, places, complaint, read.job.images.len());
    lemma_saving_keeps_job(read, 0);
    lemma_saving_touches_the_saveable_only(read.job, places, 0);
    let end = run_to_end(client, job, true, candidates, places, complaint, started, answered);
    assert forall|m: int| 0 <= m < found.len() implies (#[trigger] end.job.images[m]) == (
    JobImageView {
        index: m as nat,
        data: None,
        path: Some(places[m].0),
        mime_type: found[m].mime_type,
    }) by {
        assert(read.job.images[m] == JobImageView::inline(
            m as nat,
            found[m].data,
            found[m].mime_type,
        ));
        assert(saveable(read.job, places, m));
    }
}

/// A run for a fresh job in whose answer a candidate refuses ends with the
/// failure of the first such candidate: the job is failed with its message,
/// and nothing is saved, whether or not images were to be saved.
pub proof fn lemma_run_fails_on_refusal(
    client: GeminiClientView,
    job: JobView,
    download: bool,
    candidates: Seq<CandidateView>,
    k: int,
    places: Places,
    complaint: Seq<char>,
    started: Timestamp,
    answered: Timestamp,
)
    requires
        job.status == JobStatusView::Queued,
        0 <= k < candidates.len(),
        refuses(candidates[k]),
    ensures
        first_refusal(candidates) is Some,
        ({
            let end = run_to_end(
                client,
                job,
                download,
                candidates,
                places,
                complaint,
                started,
                answered,
            );
            let message = refusal_message(candidates[first_refusal(candidates)->0]);
            &&& end.phase == Phase::Finished
            &&& end.failure == Some(BananaErrorView::GenerationFailed(message))
            &&& end.job.status == JobStatusView::Failed { error: message }
            &&& end.saved.len() == 0
            &&& end.job == run_to_answer(client, job, download, candidates, started, answered).job
        }),
{
    let inserted = PipelineView::started(client, job, download).step(
        PipelineEventView::Stored,
        started,
    ).0;
    let called = inserted.step(PipelineEventView::Stored, started).0;
    lemma_refusal_fails(called.job, candidates, k, answered);
}

} // verus!
