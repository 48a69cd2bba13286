//! The backing store: one videos table and one jobs table.
//!
//! `Database` holds the rows both repositories work on. Its invariant pins
//! down what the schema guarantees: ids are unique within each table, every
//! job row references an existing video row, and every job row is
//! well-formed. Lookups are specified over the tables' mathematical values
//! through a small generic theory of keyed rows.

use crate::domain::{job_model_wf, JobModel, VideoModel};
use vstd::prelude::*;

verus! {

/// One stored video row.
#[derive(Clone, Debug)]
pub struct VideoRecord {
    pub id: u128,
    pub resource_id: String,
    pub file_path: String,
    pub created_at: i64,
}

/// One stored job row.
#[derive(Clone, Debug)]
pub struct JobRecord {
    pub id: u128,
    pub output_bucket_path: String,
    pub status: String,
    pub video_id: u128,
    pub error: Option<String>,
    pub created_at: i64,
    pub updated_at: i64,
}

impl View for VideoRecord {
    type V = VideoModel;

    open spec fn view(&self) -> VideoModel {
        VideoModel {
            id: self.id,
            resource_id: self.resource_id@,
            file_path: self.file_path@,
            created_at: self.created_at,
        }
    }
}

impl View for JobRecord {
    type V = JobModel;

    open spec fn view(&self) -> JobModel {
        JobModel {
            id: self.id,
            output_bucket_path: self.output_bucket_path@,
            status: self.status@,
            video_id: self.video_id,
            error: crate::domain::error_text(self.error),
            created_at: self.created_at,
            updated_at: self.updated_at,
        }
    }
}

/// Some row of `s` has key `id`.
pub open spec fn has_row<A>(s: Seq<A>, key: spec_fn(A) -> u128, id: u128) -> bool {
    exists|i: int| 0 <= i < s.len() && key(#[trigger] s[i]) == id
}

/// The position of the row of `s` with key `id`; meaningful only when there
/// is one.
pub open spec fn row_index<A>(s: Seq<A>, key: spec_fn(A) -> u128, id: u128) -> int {
    choose|i: int| 0 <= i < s.len() && key(#[trigger] s[i]) == id
}

/// The row of `s` with key `id`, if any.
pub open spec fn row_at<A>(s: Seq<A>, key: spec_fn(A) -> u128, id: u128) -> Option<A> {
    if has_row(s, key, id) {
        Some(s[row_index(s, key, id)])
    } else {
        None
    }
}

/// No two rows of `s` share a key.
pub open spec fn unique_keys<A>(s: Seq<A>, key: spec_fn(A) -> u128) -> bool {
    forall|i: int, j: int|
        #![trigger key(s[i]), key(s[j])]
        0 <= i < s.len() && 0 <= j < s.len() && i != j ==> key(s[i]) != key(s[j])
}

/// A row's own key looks it up, provided keys are unique.
pub proof fn lemma_row_at_index<A>(s: Seq<A>, key: spec_fn(A) -> u128, i: int)
    requires
        unique_keys(s, key),
        0 <= i < s.len(),
    ensures
        row_at(s, key, key(s[i])) == Some(s[i]),
{
    let id = key(s[i]);
    assert(0 <= i < s.len() && key(s[i]) == id);
    assert(has_row(s, key, id));
    let j = row_index(s, key, id);
    assert(0 <= j < s.len() && key(s[j]) == id);
    assert(key(s[j]) == key(s[i]));
    assert(j == i);
}

/// A found row carries the key it was found under.
pub proof fn lemma_row_at_key<A>(s: Seq<A>, key: spec_fn(A) -> u128, id: u128)
    ensures
        row_at(s, key, id) matches Some(v) ==> key(v) == id,
{
    if has_row(s, key, id) {
        let i = row_index(s, key, id);
        assert(0 <= i < s.len() && key(s[i]) == id);
    }
}

/// A found row is one of the rows.
pub proof fn lemma_row_at_is_element<A>(s: Seq<A>, key: spec_fn(A) -> u128, id: u128)
    ensures
        row_at(s, key, id) matches Some(v) ==> exists|i: int| 0 <= i < s.len() && #[trigger] s[i]
            == v,
{
    if has_row(s, key, id) {
        let i = row_index(s, key, id);
        assert(0 <= i < s.len() && key(s[i]) == id);
        assert(s[i] == row_at(s, key, id)->0);
    }
}

/// A freshly appended row is found under its own key.
pub proof fn lemma_row_at_push_fresh<A>(s: Seq<A>, key: spec_fn(A) -> u128, m: A)
    requires
        !has_row(s, key, key(m)),
    ensures
        row_at(s.push(m), key, key(m)) == Some(m),
{
    let t = s.push(m);
    let id = key(m);
    assert(t[s.len() as int] == m);
    assert(0 <= s.len() < t.len() && key(t[s.len() as int]) == id);
    assert(has_row(t, key, id));
    let j = row_index(t, key, id);
    assert(0 <= j < t.len() && key(t[j]) == id);
    if j < s.len() {
        assert(t[j] == s[j]);
        assert(false);
    }
    assert(t[j] == m);
}

/// Appending a row leaves every other key's lookup unchanged.
pub proof fn lemma_row_at_push_other<A>(s: Seq<A>, key: spec_fn(A) -> u128, m: A, id: u128)
    requires
        unique_keys(s, key),
        id != key(m),
    ensures
        row_at(s.push(m), key, id) == row_at(s, key, id),
{
    let t = s.push(m);
    if has_row(t, key, id) {
        let j = row_index(t, key, id);
        assert(0 <= j < t.len() && key(t[j]) == id);
        assert(j < s.len());
        assert(t[j] == s[j]);
        assert(has_row(s, key, id));
        let k = row_index(s, key, id);
        assert(0 <= k < s.len() && key(s[k]) == id);
        assert(key(s[j]) == key(s[k]));
        assert(j == k);
    } else {
        if has_row(s, key, id) {
            let k = row_index(s, key, id);
            assert(0 <= k < s.len() && key(s[k]) == id);
            assert(t[k] == s[k]);
            assert(false);
        }
    }
}

/// Appending a row with a fresh key keeps keys unique.
pub proof fn lemma_unique_keys_push<A>(s: Seq<A>, key: spec_fn(A) -> u128, m: A)
    requires
        unique_keys(s, key),
        !has_row(s, key, key(m)),
    ensures
        unique_keys(s.push(m), key),
{
    let t = s.push(m);
    assert forall|i: int, j: int|
        0 <= i < t.len() && 0 <= j < t.len() && i != j implies #[trigger] key(t[i]) != #[trigger] key(
        t[j],
    ) by {
        if i < s.len() && j < s.len() {
            assert(t[i] == s[i] && t[j] == s[j]);
        } else if i < s.len() {
            assert(t[i] == s[i] && t[j] == m);
            assert(key(s[i]) != key(m));
        } else {
            assert(t[i] == m && t[j] == s[j]);
            assert(key(s[j]) != key(m));
        }
    }
}

/// Overwriting a row in place with one carrying the same key: the key still
/// looks up a row, now the new one.
pub proof fn lemma_row_at_update_same<A>(s: Seq<A>, key: spec_fn(A) -> u128, i: int, m: A)
    requires
        unique_keys(s, key),
        0 <= i < s.len(),
        key(m) == key(s[i]),
    ensures
        row_at(s.update(i, m), key, key(m)) == Some(m),
{
    let t = s.update(i, m);
    assert(t[i] == m);
    assert(0 <= i < t.len() && key(t[i]) == key(m));
    assert(has_row(t, key, key(m)));
    let j = row_index(t, key, key(m));
    assert(0 <= j < t.len() && key(t[j]) == key(m));
    if j != i {
        assert(t[j] == s[j]);
        assert(key(s[j]) != key(s[i]));
        assert(false);
    }
}

/// Overwriting a row in place leaves every other key's lookup unchanged.
pub proof fn lemma_row_at_update_other<A>(s: Seq<A>, key: spec_fn(A) -> u128, i: int, m: A, id: u128)
    requires
        unique_keys(s, key),
        0 <= i < s.len(),
        key(m) == key(s[i]),
        id != key(m),
    ensures
        row_at(s.update(i, m), key, id) == row_at(s, key, id),
{
    let t = s.update(i, m);
    if has_row(t, key, id) {
        let j = row_index(t, key, id);
        assert(0 <= j < t.len() && key(t[j]) == id);
        assert(j != i);
        assert(t[j] == s[j]);
        assert(has_row(s, key, id));
        let k = row_index(s, key, id);
        assert(0 <= k < s.len() && key(s[k]) == id);
        assert(key(s[j]) == key(s[k]));
        assert(j == k);
    } else {
        if has_row(s, key, id) {
            let k = row_index(s, key, id);
            assert(0 <= k < s.len() && key(s[k]) == id);
            assert(k != i);
            assert(t[k] == s[k]);
            assert(false);
        }
    }
}

/// Overwriting a row with one carrying the same key keeps keys unique.
pub proof fn lemma_unique_keys_update<A>(s: Seq<A>, key: spec_fn(A) -> u128, i: int, m: A)
    requires
        unique_keys(s, key),
        0 <= i < s.len(),
        key(m) == key(s[i]),
    ensures
        unique_keys(s.update(i, m), key),
{
    let t = s.update(i, m);
    assert forall|p: int, q: int|
        0 <= p < t.len() && 0 <= q < t.len() && p != q implies #[trigger] key(t[p]) != #[trigger] key(
        t[q],
    ) by {
        if p != i && q != i {
            assert(t[p] == s[p] && t[q] == s[q]);
        } else if p == i {
            assert(t[q] == s[q]);
            assert(key(s[i]) != key(s[q]));
        } else {
            assert(t[p] == s[p]);
            assert(key(s[p]) != key(s[i]));
        }
    }
}

/// The key of a video row.
pub open spec fn video_key() -> spec_fn(VideoModel) -> u128 {
    |m: VideoModel| m.id
}

/// The key of a job row.
pub open spec fn job_key() -> spec_fn(JobModel) -> u128 {
    |m: JobModel| m.id
}

/// The job rows of `s` that belong to the video `vid`, in table order.
pub open spec fn jobs_for(s: Seq<JobModel>, vid: u128) -> Seq<JobModel>
    decreases s.len(),
{
    if s.len() == 0 {
        Seq::empty()
    } else {
        let rest = jobs_for(s.drop_last(), vid);
        if s.last().video_id == vid {
            rest.push(s.last())
        } else {
            rest
        }
    }
}

/// Appending a row extends the per-video selection exactly when the row
/// belongs to that video.
pub proof fn lemma_jobs_for_push(s: Seq<JobModel>, j: JobModel, vid: u128)
    ensures
        jobs_for(s.push(j), vid) == if j.video_id == vid {
            jobs_for(s, vid).push(j)
        } else {
            jobs_for(s, vid)
        },
{
    assert(s.push(j).drop_last() =~= s);
    assert(s.push(j).last() == j);
}

/// A video no row of `s` references selects nothing.
pub proof fn lemma_jobs_for_absent(s: Seq<JobModel>, vid: u128)
    requires
        forall|i: int| 0 <= i < s.len() ==> (#[trigger] s[i]).video_id != vid,
    ensures
        jobs_for(s, vid).len() == 0,
    decreases s.len(),
{
    if s.len() > 0 {
        lemma_jobs_for_absent(s.drop_last(), vid);
    }
}

/// The mathematical values of a sequence of video rows.
pub open spec fn video_models(s: Seq<VideoRecord>) -> Seq<VideoModel> {
    s.map_values(|r: VideoRecord| r@)
}

/// The mathematical values of a sequence of job rows.
pub open spec fn job_models(s: Seq<JobRecord>) -> Seq<JobModel> {
    s.map_values(|r: JobRecord| r@)
}

/// Taking values distributes over appending a video row.
pub proof fn lemma_video_models_push(s: Seq<VideoRecord>, r: VideoRecord)
    ensures
        video_models(s.push(r)) == video_models(s).push(r@),
{
    assert(video_models(s.push(r)) =~= video_models(s).push(r@));
}

/// Taking values distributes over appending a job row.
pub proof fn lemma_job_models_push(s: Seq<JobRecord>, r: JobRecord)
    ensures
        job_models(s.push(r)) == job_models(s).push(r@),
{
    assert(job_models(s.push(r)) =~= job_models(s).push(r@));
}

/// Taking values distributes over overwriting a job row.
pub proof fn lemma_job_models_update(s: Seq<JobRecord>, i: int, r: JobRecord)
    requires
        0 <= i < s.len(),
    ensures
        job_models(s.update(i, r)) == job_models(s).update(i, r@),
{
    assert(job_models(s.update(i, r)) =~= job_models(s).update(i, r@));
}

/// A row found in `s` is still found after a push; a row found after a push
/// under a key the new row does not carry was already there.
pub proof fn lemma_has_row_push<A>(s: Seq<A>, key: spec_fn(A) -> u128, m: A, id: u128)
    ensures
        has_row(s, key, id) ==> has_row(s.push(m), key, id),
        has_row(s.push(m), key, id) && key(m) != id ==> has_row(s, key, id),
{
    let t = s.push(m);
    if has_row(s, key, id) {
        let i = choose|i: int| 0 <= i < s.len() && key(#[trigger] s[i]) == id;
        assert(t[i] == s[i]);
        assert(0 <= i < t.len() && key(t[i]) == id);
    }
    if has_row(t, key, id) && key(m) != id {
        let i = choose|i: int| 0 <= i < t.len() && key(#[trigger] t[i]) == id;
        assert(i < s.len());
        assert(t[i] == s[i]);
        assert(0 <= i < s.len() && key(s[i]) == id);
    }
}

/// The tables both repositories read and write.
pub struct Database {
    pub videos: Vec<VideoRecord>,
    pub jobs: Vec<JobRecord>,
}

impl Database {
    /// The mathematical value of the videos table.
    pub open spec fn videos_m(&self) -> Seq<VideoModel> {
        video_models(self.videos@)
    }

    /// The mathematical value of the jobs table.
    pub open spec fn jobs_m(&self) -> Seq<JobModel> {
        job_models(self.jobs@)
    }

    /// Some video row carries `id`.
    pub open spec fn has_video(&self, id: u128) -> bool {
        has_row(self.videos_m(), video_key(), id)
    }

    /// Some job row carries `id`.
    pub open spec fn has_job(&self, id: u128) -> bool {
        has_row(self.jobs_m(), job_key(), id)
    }

    /// The video row carrying `id`, if any.
    pub open spec fn video_at(&self, id: u128) -> Option<VideoModel> {
        row_at(self.videos_m(), video_key(), id)
    }

    /// The job row carrying `id`, if any.
    pub open spec fn job_at(&self, id: u128) -> Option<JobModel> {
        row_at(self.jobs_m(), job_key(), id)
    }

    /// The job rows of the video `vid`, in table order.
    pub open spec fn jobs_of(&self, vid: u128) -> Seq<JobModel> {
        jobs_for(self.jobs_m(), vid)
    }

    /// Every job row references a stored video row.
    pub open spec fn fk_ok(&self) -> bool {
        forall|i: int|
            0 <= i < self.jobs_m().len() ==> self.has_video(#[trigger] self.jobs_m()[i].video_id)
    }

    /// Every job row satisfies the job invariant.
    pub open spec fn rows_wf(&self) -> bool {
        forall|i: int| 0 <= i < self.jobs_m().len() ==> job_model_wf(#[trigger] self.jobs_m()[i])
    }

    /// What the schema guarantees of the stored rows.
    pub open spec fn inv(&self) -> bool {
        &&& unique_keys(self.videos_m(), video_key())
        &&& unique_keys(self.jobs_m(), job_key())
        &&& self.fk_ok()
        &&& self.rows_wf()
    }

    /// Creates an empty store.
    pub fn new() -> (r: Database)
        ensures
            r.videos@.len() == 0,
            r.jobs@.len() == 0,
            r.inv(),
    {
        Database { videos: Vec::new(), jobs: Vec::new() }
    }

    /// The position of the video row carrying `id`, if any.
    pub(crate) fn video_index(&self, id: u128) -> (r: Option<usize>)
        ensures
            match r {
                Some(i) => i < self.videos@.len() && self.videos_m()[i as int].id == id,
                None => !self.has_video(id),
            },
    {
        let n = self.videos.len();
        let mut i: usize = 0;
        while i < n
            invariant
                i <= n,
                n == self.videos@.len(),
                forall|k: int| 0 <= k < i ==> self.videos_m()[k].id != id,
            decreases n - i,
        {
            if self.videos[i].id == id {
                return Some(i);
            }
            i += 1;
        }
        None
    }

    /// The position of the job row carrying `id`, if any.
    pub(crate) fn job_index(&self, id: u128) -> (r: Option<usize>)
        ensures
            match r {
                Some(i) => i < self.jobs@.len() && self.jobs_m()[i as int].id == id,
                None => !self.has_job(id),
            },
    {
        let n = self.jobs.len();
        let mut i: usize = 0;
        while i < n
            invariant
                i <= n,
                n == self.jobs@.len(),
                forall|k: int| 0 <= k < i ==> self.jobs_m()[k].id != id,
            decreases n - i,
        {
            if self.jobs[i].id == id {
                return Some(i);
            }
            i += 1;
        }
        None
    }
}

} // verus!
