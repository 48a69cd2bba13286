//! The entity model: `Video` and `Job` values and their invariants.
//!
//! A `Video` is one source media asset; it is created once and never mutated.
//! A `Job` is one transcode attempt for a video; it references its parent by
//! id and carries a read-only shared snapshot of it. Timestamps are
//! milliseconds since the Unix epoch; identifiers are opaque 128-bit values.

use crate::clock::now_millis;
use crate::ids::fresh_id;
use std::sync::Arc;
use vstd::prelude::*;

verus! {

/// The status text of a job that has not yet started any stage.
pub open spec fn status_pending() -> Seq<char> {
    "pending"@
}

/// The status text of a job whose source object is being fetched.
pub open spec fn status_downloading() -> Seq<char> {
    "downloading"@
}

/// The status text of a job whose fragmentation stage is running.
pub open spec fn status_fragmenting() -> Seq<char> {
    "fragmenting"@
}

/// The status text of a job whose packaging stage is running.
pub open spec fn status_encoding() -> Seq<char> {
    "encoding"@
}

/// The status text of a job every stage of which succeeded.
pub open spec fn status_completed() -> Seq<char> {
    "completed"@
}

/// The status text of a job aborted by a stage failure.
pub open spec fn status_failed() -> Seq<char> {
    "failed"@
}

/// The failure status differs from every other status text.
pub proof fn lemma_failed_code_distinct()
    ensures
        status_failed() != status_pending(),
        status_failed() != status_downloading(),
        status_failed() != status_fragmenting(),
        status_failed() != status_encoding(),
        status_failed() != status_completed(),
{
    reveal_strlit("pending");
    reveal_strlit("downloading");
    reveal_strlit("fragmenting");
    reveal_strlit("encoding");
    reveal_strlit("completed");
    reveal_strlit("failed");
    assert(status_failed().len() == 6);
    assert(status_pending().len() == 7);
    assert(status_downloading().len() == 11);
    assert(status_fragmenting().len() == 11);
    assert(status_encoding().len() == 8);
    assert(status_completed().len() == 9);
}

/// The mathematical value of one stored video row.
#[verifier::ext_equal]
pub ghost struct VideoModel {
    pub id: u128,
    pub resource_id: Seq<char>,
    pub file_path: Seq<char>,
    pub created_at: i64,
}

/// The mathematical value of one stored job row.
#[verifier::ext_equal]
pub ghost struct JobModel {
    pub id: u128,
    pub output_bucket_path: Seq<char>,
    pub status: Seq<char>,
    pub video_id: u128,
    pub error: Option<Seq<char>>,
    pub created_at: i64,
    pub updated_at: i64,
}

/// The mathematical value of a materialized job: its row together with the
/// snapshot of the parent video it embeds.
#[verifier::ext_equal]
pub ghost struct JobView {
    pub id: u128,
    pub output_bucket_path: Seq<char>,
    pub status: Seq<char>,
    pub video: VideoModel,
    pub video_id: u128,
    pub error: Option<Seq<char>>,
    pub created_at: i64,
    pub updated_at: i64,
}

/// The mathematical value of a materialized video: its row together with the
/// jobs hydrated for it.
#[verifier::ext_equal]
pub ghost struct VideoView {
    pub id: u128,
    pub resource_id: Seq<char>,
    pub file_path: Seq<char>,
    pub created_at: i64,
    pub jobs: Seq<JobView>,
}

/// The value of an optional error text.
pub open spec fn error_text(e: Option<String>) -> Option<Seq<char>> {
    match e {
        Some(s) => Some(s@),
        None => None,
    }
}

/// One source media asset.
///
/// `jobs` is populated only when the video is loaded together with its jobs;
/// a freshly created video carries none.
#[derive(Clone, Debug)]
pub struct Video {
    pub id: u128,
    pub resource_id: String,
    pub file_path: String,
    pub created_at: i64,
    pub jobs: Vec<Job>,
}

/// One transcode attempt for a video.
///
/// `video` is a read-only shared snapshot of the parent; `video_id` is set
/// from it at creation and never changed. `error` is present exactly when the
/// job has failed.
#[derive(Clone, Debug)]
pub struct Job {
    pub id: u128,
    pub output_bucket_path: String,
    pub status: String,
    pub video: Arc<Video>,
    pub video_id: u128,
    pub error: Option<String>,
    pub created_at: i64,
    pub updated_at: i64,
}

impl Video {
    /// The flat row value of this video, without its hydrated jobs.
    pub open spec fn record(&self) -> VideoModel {
        VideoModel {
            id: self.id,
            resource_id: self.resource_id@,
            file_path: self.file_path@,
            created_at: self.created_at,
        }
    }
}

impl Job {
    /// The flat row value of this job, without its embedded video.
    pub open spec fn record(&self) -> JobModel {
        JobModel {
            id: self.id,
            output_bucket_path: self.output_bucket_path@,
            status: self.status@,
            video_id: self.video_id,
            error: error_text(self.error),
            created_at: self.created_at,
            updated_at: self.updated_at,
        }
    }

    /// The invariant of a job value: it points consistently at its parent
    /// snapshot, its timestamps are ordered, and it carries a non-empty error
    /// text exactly when it has failed.
    pub open spec fn wf(&self) -> bool {
        &&& self.video_id == (*self.video).id
        &&& (*self.video).jobs@.len() == 0
        &&& self.updated_at >= self.created_at
        &&& (self.status@ == status_failed() <==> self.error is Some)
        &&& match self.error {
            Some(e) => e@.len() > 0,
            None => true,
        }
    }
}

impl View for Job {
    type V = JobView;

    open spec fn view(&self) -> JobView {
        JobView {
            id: self.id,
            output_bucket_path: self.output_bucket_path@,
            status: self.status@,
            video: (*self.video).record(),
            video_id: self.video_id,
            error: error_text(self.error),
            created_at: self.created_at,
            updated_at: self.updated_at,
        }
    }
}

impl View for Video {
    type V = VideoView;

    open spec fn view(&self) -> VideoView {
        VideoView {
            id: self.id,
            resource_id: self.resource_id@,
            file_path: self.file_path@,
            created_at: self.created_at,
            jobs: job_views(self.jobs@),
        }
    }
}

/// The flat row value of a materialized video.
pub open spec fn video_flat(v: VideoView) -> VideoModel {
    VideoModel {
        id: v.id,
        resource_id: v.resource_id,
        file_path: v.file_path,
        created_at: v.created_at,
    }
}

/// The flat row value of a materialized job.
pub open spec fn job_flat(j: JobView) -> JobModel {
    JobModel {
        id: j.id,
        output_bucket_path: j.output_bucket_path,
        status: j.status,
        video_id: j.video_id,
        error: j.error,
        created_at: j.created_at,
        updated_at: j.updated_at,
    }
}

/// A job row materialized against the snapshot of its parent video.
pub open spec fn hydrated_job_view(j: JobModel, v: VideoModel) -> JobView {
    JobView {
        id: j.id,
        output_bucket_path: j.output_bucket_path,
        status: j.status,
        video: v,
        video_id: j.video_id,
        error: j.error,
        created_at: j.created_at,
        updated_at: j.updated_at,
    }
}

/// The job rows of `jobs`, each materialized against the same video
/// snapshot.
pub open spec fn hydrated_jobs(jobs: Seq<JobModel>, v: VideoModel) -> Seq<JobView> {
    jobs.map_values(|j: JobModel| hydrated_job_view(j, v))
}

/// Materializing distributes over appending a row.
pub proof fn lemma_hydrated_jobs_push(jobs: Seq<JobModel>, j: JobModel, v: VideoModel)
    ensures
        hydrated_jobs(jobs.push(j), v) == hydrated_jobs(jobs, v).push(hydrated_job_view(j, v)),
{
    assert(hydrated_jobs(jobs.push(j), v) =~= hydrated_jobs(jobs, v).push(hydrated_job_view(j, v)));
}

/// A video row materialized together with its job rows, each of which embeds
/// the same snapshot of the video.
pub open spec fn hydrated_video_view(v: VideoModel, jobs: Seq<JobModel>) -> VideoView {
    VideoView {
        id: v.id,
        resource_id: v.resource_id,
        file_path: v.file_path,
        created_at: v.created_at,
        jobs: hydrated_jobs(jobs, v),
    }
}

/// The mathematical values of a sequence of job values.
pub open spec fn job_views(s: Seq<Job>) -> Seq<JobView> {
    s.map_values(|j: Job| j@)
}

/// Taking views distributes over appending a job.
pub proof fn lemma_job_views_push(s: Seq<Job>, j: Job)
    ensures
        job_views(s.push(j)) == job_views(s).push(j@),
{
    assert(job_views(s.push(j)) =~= job_views(s).push(j@));
}

/// The row value a job model corresponds to when its well-formedness is
/// stated over models rather than values.
pub open spec fn job_model_wf(j: JobModel) -> bool {
    &&& j.updated_at >= j.created_at
    &&& (j.status == status_failed() <==> j.error is Some)
    &&& match j.error {
        Some(e) => e.len() > 0,
        None => true,
    }
}

impl Video {
    /// Creates a video for a caller-supplied resource reference and source
    /// object path, with a fresh identifier, the current time and no jobs.
    pub fn new(resource_id: String, file_path: String) -> (r: Video)
        ensures
            r@.resource_id == resource_id@,
            r@.file_path == file_path@,
            r@.jobs.len() == 0,
            r.jobs@.len() == 0,
    {
        Video {
            id: fresh_id(),
            resource_id,
            file_path,
            created_at: now_millis(),
            jobs: Vec::new(),
        }
    }
}

impl Job {
    /// Creates a job for the given parent video snapshot, with a fresh
    /// identifier, `error` unset, and both timestamps set to the current
    /// time. The status must not claim a failure that never happened, and the
    /// snapshot must carry no nested jobs.
    pub fn new(output_bucket_path: String, status: String, video: Arc<Video>) -> (r: Job)
        requires
            status@ != status_failed(),
            (*video).jobs@.len() == 0,
        ensures
            r@.output_bucket_path == output_bucket_path@,
            r@.status == status@,
            r@.video == (*video).record(),
            r@.video_id == (*video).id,
            r@.error is None,
            r@.created_at == r@.updated_at,
            r.wf(),
    {
        let video_id = video.id;
        let now = now_millis();
        Job {
            id: fresh_id(),
            output_bucket_path,
            status,
            video,
            video_id,
            error: None,
            created_at: now,
            updated_at: now,
        }
    }
}

/// Copies an optional error text.
pub(crate) fn copy_opt_text(e: &Option<String>) -> (r: Option<String>)
    ensures
        error_text(r) == error_text(*e),
{
    match e {
        Some(s) => Some(s.clone()),
        None => None,
    }
}

/// A fresh snapshot of a video's row fields, carrying no jobs.
pub(crate) fn snapshot_of(v: &Video) -> (r: Video)
    ensures
        r.record() == v.record(),
        r.jobs@.len() == 0,
{
    Video {
        id: v.id,
        resource_id: v.resource_id.clone(),
        file_path: v.file_path.clone(),
        created_at: v.created_at,
        jobs: Vec::new(),
    }
}

/// A copy of a job with the same mathematical value. The copy's embedded
/// video snapshot carries no nested jobs.
pub(crate) fn copy_job(j: &Job) -> (r: Job)
    ensures
        r@ == j@,
        (*r.video).jobs@.len() == 0,
{
    let r = Job {
        id: j.id,
        output_bucket_path: j.output_bucket_path.clone(),
        status: j.status.clone(),
        video: Arc::new(snapshot_of(&*j.video)),
        video_id: j.video_id,
        error: copy_opt_text(&j.error),
        created_at: j.created_at,
        updated_at: j.updated_at,
    };
    proof {
        assert(r@ =~= j@);
    }
    r
}

/// A copy of a video with the same mathematical value, its hydrated jobs
/// included.
pub(crate) fn copy_video(v: &Video) -> (r: Video)
    ensures
        r@ == v@,
{
    let mut jobs: Vec<Job> = Vec::new();
    let n = v.jobs.len();
    let mut i: usize = 0;
    while i < n
        invariant
            i <= n,
            n == v.jobs@.len(),
            job_views(jobs@) == job_views(v.jobs@.subrange(0, i as int)),
        decreases n - i,
    {
        let cj = copy_job(&v.jobs[i]);
        let ghost pre = jobs@;
        jobs.push(cj);
        proof {
            assert(jobs@ =~= pre.push(cj));
            lemma_job_views_push(pre, cj);
            assert(v.jobs@.subrange(0, (i + 1) as int) =~= v.jobs@.subrange(0, i as int).push(
                v.jobs@[i as int],
            ));
            lemma_job_views_push(v.jobs@.subrange(0, i as int), v.jobs@[i as int]);
        }
        i += 1;
    }
    let r = Video {
        id: v.id,
        resource_id: v.resource_id.clone(),
        file_path: v.file_path.clone(),
        created_at: v.created_at,
        jobs,
    };
    proof {
        assert(v.jobs@.subrange(0, n as int) =~= v.jobs@);
        assert(r@ =~= v@);
    }
    r
}

} // verus!
