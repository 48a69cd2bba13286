//! The repository of videos.
//!
//! `insert` persists the four immutable fields of a brand-new video and
//! rejects a taken id. `find` materializes the video together with every job
//! stored for it, in table order, each job embedding an equal snapshot of
//! the video — never divergent data. Videos are immutable, so `update` is
//! unsupported.

use crate::db::{
    jobs_for, lemma_has_row_push, lemma_jobs_for_push, lemma_row_at_index, lemma_row_at_push_fresh,
    lemma_row_at_push_other, lemma_unique_keys_push, lemma_video_models_push, video_key, Database,
    VideoRecord,
};
use crate::domain::{
    copy_opt_text, copy_video, hydrated_job_view, hydrated_jobs, hydrated_video_view, job_views,
    lemma_hydrated_jobs_push, lemma_job_views_push, video_flat, Job, Video, VideoView,
};
use crate::error::{StoreErrorKind, VideoRepositoryError};
use crate::repository::Repository;
use std::sync::Arc;
use vstd::prelude::*;

verus! {

pub struct VideoRepository {
    pub db: Database,
}

impl VideoRepository {
    pub fn new(db: Database) -> (r: Self)
        ensures
            r.db == db,
    {
        VideoRepository { db }
    }

    /// Builds the materialized job for a stored row and a snapshot of its
    /// parent video.
    fn map_job_from_row(row: &crate::db::JobRecord, video: Video) -> (r: Job)
        ensures
            r@ == hydrated_job_view(row@, video.record()),
    {
        let r = Job {
            id: row.id,
            output_bucket_path: row.output_bucket_path.clone(),
            status: row.status.clone(),
            video: Arc::new(video),
            video_id: row.video_id,
            error: copy_opt_text(&row.error),
            created_at: row.created_at,
            updated_at: row.updated_at,
        };
        proof {
            assert(r@ =~= hydrated_job_view(row@, (*r.video).record()));
        }
        r
    }
}

impl Repository<Video> for VideoRepository {
    open spec fn inv(&self) -> bool {
        self.db.inv()
    }

    open spec fn id_of(item: VideoView) -> u128 {
        item.id
    }

    open spec fn item_wf(item: VideoView) -> bool {
        true
    }

    open spec fn lookup(&self, id: u128) -> Option<VideoView> {
        match self.db.video_at(id) {
            Some(m) => Some(hydrated_video_view(m, self.db.jobs_of(id))),
            None => None,
        }
    }

    open spec fn may_insert(&self, item: VideoView) -> bool {
        !self.db.has_video(item.id)
    }

    open spec fn insert_err(&self, item: VideoView) -> VideoRepositoryError {
        VideoRepositoryError(StoreErrorKind::DuplicateId)
    }

    open spec fn stored_view(&self, item: VideoView) -> VideoView {
        hydrated_video_view(video_flat(item), self.db.jobs_of(item.id))
    }

    open spec fn may_update(&self, item: VideoView) -> bool {
        false
    }

    open spec fn update_err(&self, item: VideoView) -> VideoRepositoryError {
        VideoRepositoryError(StoreErrorKind::Unsupported)
    }

    open spec fn updated_view(&self, item: VideoView) -> VideoView {
        item
    }

    open spec fn insert_frame(&self, post: Self, item: VideoView) -> bool {
        &&& post.db.videos_m() == self.db.videos_m().push(video_flat(item))
        &&& post.db.jobs_m() == self.db.jobs_m()
    }

    open spec fn update_frame(&self, post: Self, item: VideoView) -> bool {
        true
    }

    fn insert(&mut self, item: &Video) -> (r: Result<Video, VideoRepositoryError>) {
        match self.db.video_index(item.id) {
            Some(i) => {
                proof {
                    let s = self.db.videos_m();
                    assert(0 <= i < s.len() && (video_key())(s[i as int]) == item.id);
                }
                Err(VideoRepositoryError(StoreErrorKind::DuplicateId))
            },
            None => {
                let rec = VideoRecord {
                    id: item.id,
                    resource_id: item.resource_id.clone(),
                    file_path: item.file_path.clone(),
                    created_at: item.created_at,
                };
                let ghost pre = self.db.videos_m();
                let ghost prevec = self.db.videos@;
                let ghost recg = rec;
                let ghost m = rec@;
                self.db.videos.push(rec);
                proof {
                    assert(self.db.videos@ == prevec.push(recg));
                    lemma_video_models_push(prevec, recg);
                    assert(self.db.videos_m() == pre.push(m));
                    assert(m == video_flat(item@));
                    lemma_unique_keys_push(pre, video_key(), m);
                    lemma_row_at_push_fresh(pre, video_key(), m);
                    assert(self.db.video_at(item.id) == Some(m));
                    // the foreign-key condition survives: presence of video ids only grew
                    assert forall|x: u128| old(self).db.has_video(x) implies self.db.has_video(
                        x,
                    ) by {
                        lemma_has_row_push(pre, video_key(), m, x);
                    }
                    // no other video's materialization moves
                    assert forall|other: u128| other != item@.id implies self.lookup(other) == old(
                        self,
                    ).lookup(other) by {
                        lemma_row_at_push_other(pre, video_key(), m, other);
                    }
                    assert(self.db.inv());
                }
                let out = copy_video(item);
                Ok(out)
            },
        }
    }

    fn find(&self, id: u128) -> (r: Result<Video, VideoRepositoryError>) {
        match self.db.video_index(id) {
            None => Err(VideoRepositoryError(StoreErrorKind::NotFound)),
            Some(vi) => {
                let ghost vm = self.db.videos_m()[vi as int];
                proof {
                    lemma_row_at_index(self.db.videos_m(), video_key(), vi as int);
                    assert(self.db.video_at(id) == Some(vm));
                }
                let n = self.db.jobs.len();
                let mut jobs: Vec<Job> = Vec::new();
                let mut k: usize = 0;
                while k < n
                    invariant
                        k <= n,
                        n == self.db.jobs@.len(),
                        vi < self.db.videos@.len(),
                        vm == self.db.videos_m()[vi as int],
                        vm.id == id,
                        job_views(jobs@) == hydrated_jobs(
                            jobs_for(self.db.jobs_m().subrange(0, k as int), id),
                            vm,
                        ),
                    decreases n - k,
                {
                    let ghost row = self.db.jobs_m()[k as int];
                    proof {
                        assert(self.db.jobs_m().subrange(0, (k + 1) as int)
                            =~= self.db.jobs_m().subrange(0, k as int).push(row));
                        lemma_jobs_for_push(self.db.jobs_m().subrange(0, k as int), row, id);
                    }
                    if self.db.jobs[k].video_id == id {
                        let jr = &self.db.jobs[k];
                        let vrec = &self.db.videos[vi];
                        let snapshot = Video {
                            id: vrec.id,
                            resource_id: vrec.resource_id.clone(),
                            file_path: vrec.file_path.clone(),
                            created_at: vrec.created_at,
                            jobs: Vec::new(),
                        };
                        let job = Self::map_job_from_row(jr, snapshot);
                        proof {
                            assert(job@ =~= hydrated_job_view(row, vm));
                        }
                        let ghost prejobs = jobs@;
                        jobs.push(job);
                        proof {
                            lemma_job_views_push(prejobs, job);
                            lemma_hydrated_jobs_push(
                                jobs_for(self.db.jobs_m().subrange(0, k as int), id),
                                row,
                                vm,
                            );
                        }
                    }
                    k += 1;
                }
                proof {
                    assert(self.db.jobs_m().subrange(0, n as int) =~= self.db.jobs_m());
                }
                let vrec = &self.db.videos[vi];
                let out = Video {
                    id: vrec.id,
                    resource_id: vrec.resource_id.clone(),
                    file_path: vrec.file_path.clone(),
                    created_at: vrec.created_at,
                    jobs,
                };
                proof {
                    assert(out@ =~= hydrated_video_view(vm, self.db.jobs_of(id)));
                }
                Ok(out)
            },
        }
    }

    fn update(&mut self, _item: &Video) -> (r: Result<Video, VideoRepositoryError>) {
        Err(VideoRepositoryError(StoreErrorKind::Unsupported))
    }
}

/// Law: a valid video the store accepts reads back, right after its insert,
/// with identical `id`, `resource_id`, `file_path` and `created_at`, and an
/// empty jobs collection — the store cannot yet hold a job for it.
///
/// Together with the contract of `insert` (the new video is found under its
/// id as `stored_view` says) and of `find` (it returns the lookup), this is
/// the insert-then-find round trip.
pub proof fn lemma_insert_then_find_video(repo: VideoRepository, v: VideoView)
    requires
        repo.inv(),
        repo.may_insert(v),
    ensures
        ({
            let s = repo.stored_view(v);
            &&& s.id == v.id
            &&& s.resource_id == v.resource_id
            &&& s.file_path == v.file_path
            &&& s.created_at == v.created_at
            &&& s.jobs.len() == 0
        }),
{
    assert forall|i: int|
        0 <= i < repo.db.jobs_m().len() implies (#[trigger] repo.db.jobs_m()[i]).video_id
        != v.id by {
        assert(repo.db.has_video(repo.db.jobs_m()[i].video_id));
    }
    crate::db::lemma_jobs_for_absent(repo.db.jobs_m(), v.id);
}

/// Law: when two jobs for one video enter a store that held none for it,
/// finding the video materializes a jobs collection of length two carrying
/// both job ids in insertion order, each embedding the parent video's own
/// row.
pub proof fn lemma_find_after_two_jobs(
    repo: VideoRepository,
    prior: Seq<crate::domain::JobModel>,
    r1: crate::domain::JobModel,
    r2: crate::domain::JobModel,
    vid: u128,
)
    requires
        repo.inv(),
        repo.db.video_at(vid) is Some,
        repo.db.jobs_m() == prior.push(r1).push(r2),
        jobs_for(prior, vid).len() == 0,
        r1.video_id == vid,
        r2.video_id == vid,
    ensures
        repo.lookup(vid) is Some,
        repo.lookup(vid)->0.jobs.len() == 2,
        repo.lookup(vid)->0.jobs[0].id == r1.id,
        repo.lookup(vid)->0.jobs[1].id == r2.id,
        repo.lookup(vid)->0.jobs[0].video.id == vid,
        repo.lookup(vid)->0.jobs[1].video.id == vid,
{
    lemma_jobs_for_push(prior, r1, vid);
    lemma_jobs_for_push(prior.push(r1), r2, vid);
    assert(jobs_for(prior, vid) =~= Seq::<crate::domain::JobModel>::empty());
    assert(repo.db.jobs_of(vid) =~= seq![r1, r2]);
    crate::db::lemma_row_at_key(repo.db.videos_m(), video_key(), vid);
    let v = repo.db.video_at(vid)->0;
    assert(repo.lookup(vid)->0.jobs == hydrated_jobs(seq![r1, r2], v));
    assert(repo.lookup(vid)->0.jobs[0] == hydrated_job_view(r1, v));
    assert(repo.lookup(vid)->0.jobs[1] == hydrated_job_view(r2, v));
}

} // verus!
