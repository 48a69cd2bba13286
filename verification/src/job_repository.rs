//! The repository of jobs.
//!
//! `insert` persists all seven fields of a brand-new job and rejects a taken
//! id or a dangling video reference. `find` reads the job row and then
//! materializes the referenced video — without its own nested jobs, to bound
//! recursion. `update` rewrites exactly the mutable fields
//! (`output_bucket_path`, `status`, `error`, `updated_at`) keyed by id and
//! never touches `video_id` or `created_at`.

use crate::db::{
    job_key, lemma_job_models_push, lemma_job_models_update, lemma_row_at_index,
    lemma_row_at_push_fresh, lemma_row_at_push_other, lemma_row_at_update_other,
    lemma_row_at_update_same, lemma_unique_keys_push, lemma_unique_keys_update, Database, JobRecord,
};
use crate::domain::{
    copy_job, copy_opt_text, hydrated_job_view, job_flat, job_model_wf, Job, JobModel, JobView,
    Video,
};
use crate::error::{StoreErrorKind, VideoRepositoryError};
use crate::repository::Repository;
use std::sync::Arc;
use vstd::prelude::*;

verus! {

pub struct JobRepository {
    pub db: Database,
}

impl JobRepository {
    pub fn new(db: Database) -> (r: Self)
        ensures
            r.db == db,
    {
        JobRepository { db }
    }

    /// Builds the materialized job for a stored row and a snapshot of its
    /// parent video.
    fn map_job_from_row(row: &JobRecord, video: Video) -> (r: Job)
        ensures
            r@ == hydrated_job_view(row@, video.record()),
    {
        let r = Job {
            id: row.id,
            output_bucket_path: row.output_bucket_path.clone(),
            status: row.status.clone(),
            video: Arc::new(video),
            video_id: row.video_id,
            error: copy_opt_text(&row.error),
            created_at: row.created_at,
            updated_at: row.updated_at,
        };
        proof {
            assert(r@ =~= hydrated_job_view(row@, (*r.video).record()));
        }
        r
    }
}

/// The row `update` writes for `item` over the stored row `old_row`: the
/// mutable fields come from `item`, id, `video_id` and `created_at` stay,
/// and the new `updated_at` is kept no earlier than the stored creation
/// time, so the timestamp invariant survives a caller whose clock ran
/// backwards.
pub open spec fn rewritten_row(item: JobModel, old_row: JobModel) -> JobModel {
    JobModel {
        id: old_row.id,
        output_bucket_path: item.output_bucket_path,
        status: item.status,
        video_id: old_row.video_id,
        error: item.error,
        created_at: old_row.created_at,
        updated_at: if item.updated_at >= old_row.created_at {
            item.updated_at
        } else {
            old_row.created_at
        },
    }
}

impl Repository<Job> for JobRepository {
    open spec fn inv(&self) -> bool {
        self.db.inv()
    }

    open spec fn id_of(item: JobView) -> u128 {
        item.id
    }

    open spec fn item_wf(item: JobView) -> bool {
        &&& job_model_wf(job_flat(item))
        &&& item.video.id == item.video_id
    }

    open spec fn lookup(&self, id: u128) -> Option<JobView> {
        match self.db.job_at(id) {
            Some(row) => match self.db.video_at(row.video_id) {
                Some(v) => Some(hydrated_job_view(row, v)),
                None => None,
            },
            None => None,
        }
    }

    open spec fn may_insert(&self, item: JobView) -> bool {
        !self.db.has_job(item.id) && self.db.has_video(item.video_id)
    }

    open spec fn insert_err(&self, item: JobView) -> VideoRepositoryError {
        if self.db.has_job(item.id) {
            VideoRepositoryError(StoreErrorKind::DuplicateId)
        } else {
            VideoRepositoryError(StoreErrorKind::MissingVideo)
        }
    }

    open spec fn stored_view(&self, item: JobView) -> JobView {
        match self.db.video_at(item.video_id) {
            Some(v) => hydrated_job_view(job_flat(item), v),
            None => item,
        }
    }

    open spec fn may_update(&self, item: JobView) -> bool {
        self.db.has_job(item.id)
    }

    open spec fn update_err(&self, item: JobView) -> VideoRepositoryError {
        VideoRepositoryError(StoreErrorKind::NotFound)
    }

    open spec fn updated_view(&self, item: JobView) -> JobView {
        match self.db.job_at(item.id) {
            Some(old_row) => match self.db.video_at(old_row.video_id) {
                Some(v) => hydrated_job_view(rewritten_row(job_flat(item), old_row), v),
                None => item,
            },
            None => item,
        }
    }

    open spec fn insert_frame(&self, post: Self, item: JobView) -> bool {
        &&& post.db.videos_m() == self.db.videos_m()
        &&& post.db.jobs_m() == self.db.jobs_m().push(job_flat(item))
    }

    open spec fn update_frame(&self, post: Self, item: JobView) -> bool {
        &&& post.db.videos_m() == self.db.videos_m()
        &&& post.db.jobs_m() == self.db.jobs_m().update(
            crate::db::row_index(self.db.jobs_m(), job_key(), item.id),
            rewritten_row(job_flat(item), self.db.job_at(item.id)->0),
        )
    }

    fn insert(&mut self, item: &Job) -> (r: Result<Job, VideoRepositoryError>) {
        match self.db.job_index(item.id) {
            Some(i) => {
                proof {
                    let s = self.db.jobs_m();
                    assert(0 <= i < s.len() && (job_key())(s[i as int]) == item.id);
                }
                Err(VideoRepositoryError(StoreErrorKind::DuplicateId))
            },
            None => {
                match self.db.video_index(item.video_id) {
                    None => Err(VideoRepositoryError(StoreErrorKind::MissingVideo)),
                    Some(vi) => {
                        proof {
                            crate::db::lemma_row_at_index(
                                self.db.videos_m(),
                                crate::db::video_key(),
                                vi as int,
                            );
                        }
                        let rec = JobRecord {
                            id: item.id,
                            output_bucket_path: item.output_bucket_path.clone(),
                            status: item.status.clone(),
                            video_id: item.video_id,
                            error: copy_opt_text(&item.error),
                            created_at: item.created_at,
                            updated_at: item.updated_at,
                        };
                        let ghost pre = self.db.jobs_m();
                        let ghost prevec = self.db.jobs@;
                        let ghost recg = rec;
                        let ghost m = rec@;
                        self.db.jobs.push(rec);
                        proof {
                            assert(self.db.jobs@ == prevec.push(recg));
                            lemma_job_models_push(prevec, recg);
                            assert(self.db.jobs_m() == pre.push(m));
                            assert(m =~= job_flat(item@));
                            lemma_unique_keys_push(pre, job_key(), m);
                            lemma_row_at_push_fresh(pre, job_key(), m);
                            assert(self.db.job_at(item.id) == Some(m));
                            // every row, the new one included, still references a video
                            assert forall|j: int|
                                0 <= j < self.db.jobs_m().len() implies self.db.has_video(
                                #[trigger] self.db.jobs_m()[j].video_id,
                            ) by {
                                if j < pre.len() {
                                    assert(self.db.jobs_m()[j] == pre[j]);
                                    assert(old(self).db.has_video(pre[j].video_id));
                                } else {
                                    assert(self.db.jobs_m()[j] == m);
                                }
                            }
                            // every row, the new one included, is well-formed
                            assert forall|j: int|
                                0 <= j < self.db.jobs_m().len() implies job_model_wf(
                                #[trigger] self.db.jobs_m()[j],
                            ) by {
                                if j < pre.len() {
                                    assert(self.db.jobs_m()[j] == pre[j]);
                                    assert(job_model_wf(pre[j]));
                                } else {
                                    assert(self.db.jobs_m()[j] == m);
                                }
                            }
                            // no other job's materialization moves
                            assert forall|other: u128| other != item@.id implies self.lookup(other)
                                == old(self).lookup(other) by {
                                lemma_row_at_push_other(pre, job_key(), m, other);
                            }
                            assert(self.db.inv());
                        }
                        let out = copy_job(item);
                        Ok(out)
                    },
                }
            },
        }
    }

    fn find(&self, id: u128) -> (r: Result<Job, VideoRepositoryError>) {
        match self.db.job_index(id) {
            None => Err(VideoRepositoryError(StoreErrorKind::NotFound)),
            Some(ji) => {
                let ghost row = self.db.jobs_m()[ji as int];
                proof {
                    lemma_row_at_index(self.db.jobs_m(), job_key(), ji as int);
                    assert(self.db.job_at(id) == Some(row));
                    assert(self.db.has_video(row.video_id));
                }
                let jr = &self.db.jobs[ji];
                match self.db.video_index(jr.video_id) {
                    None => {
                        proof {
                            assert(false);
                        }
                        Err(VideoRepositoryError(StoreErrorKind::NotFound))
                    },
                    Some(vi) => {
                        let ghost vm = self.db.videos_m()[vi as int];
                        proof {
                            crate::db::lemma_row_at_index(
                                self.db.videos_m(),
                                crate::db::video_key(),
                                vi as int,
                            );
                            assert(self.db.video_at(row.video_id) == Some(vm));
                        }
                        let vrec = &self.db.videos[vi];
                        let video = Video {
                            id: vrec.id,
                            resource_id: vrec.resource_id.clone(),
                            file_path: vrec.file_path.clone(),
                            created_at: vrec.created_at,
                            jobs: Vec::new(),
                        };
                        let job = Self::map_job_from_row(jr, video);
                        proof {
                            assert(job@ =~= hydrated_job_view(row, vm));
                        }
                        Ok(job)
                    },
                }
            },
        }
    }

    fn update(&mut self, item: &Job) -> (r: Result<Job, VideoRepositoryError>) {
        match self.db.job_index(item.id) {
            None => Err(VideoRepositoryError(StoreErrorKind::NotFound)),
            Some(i) => {
                let ghost pre = self.db.jobs_m();
                let ghost prevec = self.db.jobs@;
                let ghost old_row = self.db.jobs_m()[i as int];
                proof {
                    lemma_row_at_index(pre, job_key(), i as int);
                    assert(self.db.job_at(item.id) == Some(old_row));
                }
                let created = self.db.jobs[i].created_at;
                let vid = self.db.jobs[i].video_id;
                let new_updated = if item.updated_at >= created {
                    item.updated_at
                } else {
                    created
                };
                let rec = JobRecord {
                    id: item.id,
                    output_bucket_path: item.output_bucket_path.clone(),
                    status: item.status.clone(),
                    video_id: vid,
                    error: copy_opt_text(&item.error),
                    created_at: created,
                    updated_at: new_updated,
                };
                let ghost recg = rec;
                let ghost m = rec@;
                self.db.jobs[i] = rec;
                proof {
                    assert(self.db.jobs@ == prevec.update(i as int, recg));
                    lemma_job_models_update(prevec, i as int, recg);
                    assert(self.db.jobs_m() == pre.update(i as int, m));
                    assert(m =~= rewritten_row(job_flat(item@), old_row));
                    lemma_unique_keys_update(pre, job_key(), i as int, m);
                    lemma_row_at_update_same(pre, job_key(), i as int, m);
                    assert(self.db.job_at(item.id) == Some(m));
                    // every row still references a video: the rewritten row kept its
                    // reference, and the videos table did not move
                    assert forall|j: int|
                        0 <= j < self.db.jobs_m().len() implies self.db.has_video(
                        #[trigger] self.db.jobs_m()[j].video_id,
                    ) by {
                        if j == i {
                            assert(self.db.jobs_m()[j] == m);
                            assert(old(self).db.has_video(old_row.video_id));
                        } else {
                            assert(self.db.jobs_m()[j] == pre[j]);
                            assert(old(self).db.has_video(pre[j].video_id));
                        }
                    }
                    // every row is still well-formed
                    assert forall|j: int|
                        0 <= j < self.db.jobs_m().len() implies job_model_wf(
                        #[trigger] self.db.jobs_m()[j],
                    ) by {
                        if j == i {
                            assert(self.db.jobs_m()[j] == m);
                            assert(job_model_wf(old_row));
                        } else {
                            assert(self.db.jobs_m()[j] == pre[j]);
                            assert(job_model_wf(pre[j]));
                        }
                    }
                    // no other job's materialization moves
                    assert forall|other: u128| other != item@.id implies self.lookup(other) == old(
                        self,
                    ).lookup(other) by {
                        lemma_row_at_update_other(pre, job_key(), i as int, m, other);
                    }
                    assert(self.db.inv());
                    assert(self.lookup(item@.id) == Some(old(self).updated_view(item@)));
                    // the overwritten position is the one the key looks up
                    assert(0 <= i < pre.len() && (job_key())(pre[i as int]) == item@.id);
                    assert(crate::db::has_row(pre, job_key(), item@.id));
                    let ri = crate::db::row_index(pre, job_key(), item@.id);
                    assert(0 <= ri < pre.len() && (job_key())(pre[ri]) == item@.id);
                    assert(ri == i);
                    assert(old(self).update_frame(*self, item@));
                }
                let out = copy_job(item);
                Ok(out)
            },
        }
    }
}

/// Law: a valid job referencing an existing video, whose embedded snapshot
/// matches the stored parent row, reads back right after its insert as the
/// identical job, and its embedded video carries the job's `video_id`.
///
/// Together with the contract of `insert` (the new job is found under its id
/// as `stored_view` says) and of `find` (it returns the lookup), this is the
/// insert-then-find round trip.
pub proof fn lemma_insert_then_find_job(repo: JobRepository, j: JobView)
    requires
        repo.inv(),
        <JobRepository as Repository<Job>>::item_wf(j),
        repo.may_insert(j),
        repo.db.video_at(j.video_id) == Some(j.video),
    ensures
        repo.stored_view(j) == j,
        repo.stored_view(j).video.id == j.video_id,
{
    assert(repo.stored_view(j) =~= j);
}

/// Law: updating a persisted job with a new status and update time persists
/// exactly the mutable fields — `output_bucket_path`, `status`, `error`,
/// `updated_at` — while `created_at` and `video_id` stay those of the stored
/// row.
pub proof fn lemma_update_rewrites_exactly(repo: JobRepository, j: JobView)
    requires
        repo.inv(),
        repo.may_update(j),
        j.updated_at >= repo.db.job_at(j.id)->0.created_at,
    ensures
        ({
            let old_row = repo.db.job_at(j.id)->0;
            let u = repo.updated_view(j);
            &&& u.id == j.id
            &&& u.output_bucket_path == j.output_bucket_path
            &&& u.status == j.status
            &&& u.error == j.error
            &&& u.updated_at == j.updated_at
            &&& u.created_at == old_row.created_at
            &&& u.video_id == old_row.video_id
        }),
{
    let s = repo.db.jobs_m();
    crate::db::lemma_row_at_is_element(s, job_key(), j.id);
    let old_row = repo.db.job_at(j.id)->0;
    let i = choose|i: int| 0 <= i < s.len() && #[trigger] s[i] == old_row;
    assert(repo.db.has_video(s[i].video_id));
}

} // verus!
