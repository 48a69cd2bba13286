//! The transcode state machine.
//!
//! A job advances `pending → downloading → fragmenting → encoding →
//! completed`, and `failed` is reachable from any non-terminal status.
//! `JobRun` drives one job: every transition is written to the job store
//! before it returns, so an external observer can read the job's current
//! stage at any time, and a later stage never starts unless the one before
//! it succeeded.

use crate::domain::{
    lemma_failed_code_distinct, status_completed, status_downloading, status_encoding,
    status_failed, status_fragmenting, status_pending, Job,
};
use crate::error::VideoRepositoryError;
use crate::job_repository::JobRepository;
use crate::repository::Repository;
use vstd::prelude::*;
use vstd::string::StringExecFns;

verus! {

/// One discrete step of the transcode pipeline.
#[derive(Clone, Copy, Debug, PartialEq, Eq, Structural)]
pub enum StageKind {
    Download,
    Fragment,
    Encode,
}

/// The persisted status of a job.
#[derive(Clone, Copy, Debug, PartialEq, Eq, Structural)]
pub enum JobStatus {
    Pending,
    Downloading,
    Fragmenting,
    Encoding,
    Completed,
    Failed,
}

impl JobStatus {
    /// No stage transition leaves this status.
    pub open spec fn is_terminal(self) -> bool {
        self is Completed || self is Failed
    }

    /// The status text persisted for this status.
    pub open spec fn code_spec(self) -> Seq<char> {
        match self {
            JobStatus::Pending => status_pending(),
            JobStatus::Downloading => status_downloading(),
            JobStatus::Fragmenting => status_fragmenting(),
            JobStatus::Encoding => status_encoding(),
            JobStatus::Completed => status_completed(),
            JobStatus::Failed => status_failed(),
        }
    }

    pub fn code(self) -> (r: String)
        ensures
            r@ == self.code_spec(),
    {
        match self {
            JobStatus::Pending => "pending".to_owned(),
            JobStatus::Downloading => "downloading".to_owned(),
            JobStatus::Fragmenting => "fragmenting".to_owned(),
            JobStatus::Encoding => "encoding".to_owned(),
            JobStatus::Completed => "completed".to_owned(),
            JobStatus::Failed => "failed".to_owned(),
        }
    }

    /// The status after the stage run in this status succeeds.
    pub open spec fn next_spec(self) -> JobStatus {
        match self {
            JobStatus::Pending => JobStatus::Downloading,
            JobStatus::Downloading => JobStatus::Fragmenting,
            JobStatus::Fragmenting => JobStatus::Encoding,
            JobStatus::Encoding => JobStatus::Completed,
            JobStatus::Completed => JobStatus::Completed,
            JobStatus::Failed => JobStatus::Failed,
        }
    }

    pub fn next(self) -> (r: JobStatus)
        ensures
            r == self.next_spec(),
    {
        match self {
            JobStatus::Pending => JobStatus::Downloading,
            JobStatus::Downloading => JobStatus::Fragmenting,
            JobStatus::Fragmenting => JobStatus::Encoding,
            JobStatus::Encoding => JobStatus::Completed,
            JobStatus::Completed => JobStatus::Completed,
            JobStatus::Failed => JobStatus::Failed,
        }
    }

    /// The stage to run while in this status, if any.
    pub open spec fn stage_spec(self) -> Option<StageKind> {
        match self {
            JobStatus::Downloading => Some(StageKind::Download),
            JobStatus::Fragmenting => Some(StageKind::Fragment),
            JobStatus::Encoding => Some(StageKind::Encode),
            _ => None,
        }
    }

    pub fn stage(self) -> (r: Option<StageKind>)
        ensures
            r == self.stage_spec(),
    {
        match self {
            JobStatus::Downloading => Some(StageKind::Download),
            JobStatus::Fragmenting => Some(StageKind::Fragment),
            JobStatus::Encoding => Some(StageKind::Encode),
            _ => None,
        }
    }
}

/// The outcome the worker reports for one stage.
#[derive(Debug)]
pub enum StageOutcome {
    Succeeded,
    Failed(String),
}

/// One job's run through the pipeline: the job value as last persisted, and
/// the status it is in.
pub struct JobRun {
    pub job: Job,
    pub status: JobStatus,
}

impl JobRun {
    /// The run's own invariant: the job is well-formed and its status text
    /// is the one of `status`.
    pub open spec fn wf(&self) -> bool {
        &&& self.job.wf()
        &&& self.job.status@ == self.status.code_spec()
    }

    /// The job, as this run last wrote it, is the row the store holds.
    pub open spec fn persisted(&self, repo: JobRepository) -> bool {
        repo.db.job_at(self.job.id) == Some(self.job.record())
    }

    /// Persists a brand-new pending job and takes charge of it. It fails
    /// exactly when the store rejects the insert, and then leaves the store
    /// unchanged.
    pub fn start(repo: &mut JobRepository, job: Job) -> (r: Result<JobRun, VideoRepositoryError>)
        requires
            old(repo).inv(),
            job.wf(),
            job@.status == JobStatus::Pending.code_spec(),
        ensures
            final(repo).inv(),
            r is Ok <==> old(repo).may_insert(job@),
            r matches Err(e) ==> e == old(repo).insert_err(job@) && *final(repo) == *old(repo),
            r matches Ok(run) ==> run.status == JobStatus::Pending && run.wf() && run.persisted(
                *final(repo),
            ) && run.job == job,
            r is Ok ==> forall|other: u128|
                other != job@.id ==> final(repo).lookup(other) == old(repo).lookup(other),
    {
        let out = repo.insert(&job);
        match out {
            Err(e) => Err(e),
            Ok(_) => {
                let run = JobRun { job, status: JobStatus::Pending };
                proof {
                    assert(run.job@.video == (*run.job.video).record());
                    assert(repo.lookup(run.job@.id) matches Some(v) && crate::domain::job_flat(v)
                        =~= run.job.record());
                    assert(repo.db.job_at(run.job.id) is Some);
                    assert(repo.db.job_at(run.job.id)->0 =~= run.job.record());
                }
                Ok(run)
            },
        }
    }

    /// The stage the worker must run next, if the run is not yet terminal.
    pub fn current_stage(&self) -> (r: Option<StageKind>)
        ensures
            r == self.status.stage_spec(),
    {
        self.status.stage()
    }

    /// Writes the given status and error to the job and persists them, with
    /// `updated_at` moved to `now` (never before the job's creation time).
    fn persist_transition(
        &mut self,
        repo: &mut JobRepository,
        status: JobStatus,
        error: Option<String>,
        now: i64,
    ) -> (r: Result<(), VideoRepositoryError>)
        requires
            old(self).wf(),
            old(self).persisted(*old(repo)),
            old(repo).inv(),
            (status is Failed) <==> (error is Some),
            error matches Some(e) ==> e@.len() > 0,
        ensures
            r is Ok,
            final(repo).inv(),
            final(self).wf(),
            final(self).persisted(*final(repo)),
            final(self).status == status,
            final(self).job.id == old(self).job.id,
            final(self).job.video_id == old(self).job.video_id,
            final(self).job.created_at == old(self).job.created_at,
            final(self).job.output_bucket_path == old(self).job.output_bucket_path,
            final(self).job.video == old(self).job.video,
            crate::domain::error_text(final(self).job.error) == crate::domain::error_text(error),
            final(self).job.updated_at == if now >= old(self).job.created_at {
                now
            } else {
                old(self).job.created_at
            },
            final(repo).lookup(old(self).job.id) matches Some(jv) && crate::domain::job_flat(jv)
                == final(self).job.record(),
            forall|other: u128|
                other != old(self).job.id ==> final(repo).lookup(other) == old(repo).lookup(other),
    {
        proof {
            lemma_failed_code_distinct();
        }
        self.job.status = status.code();
        self.job.error = error;
        self.job.updated_at = if now >= self.job.created_at {
            now
        } else {
            self.job.created_at
        };
        self.status = status;
        let out = repo.update(&self.job);
        match out {
            Ok(_) => {
                proof {
                    assert(repo.lookup(self.job@.id) matches Some(v) && crate::domain::job_flat(v)
                        =~= self.job.record());
                    assert(repo.db.job_at(self.job.id) is Some);
                    assert(repo.db.job_at(self.job.id)->0 =~= self.job.record());
                }
                Ok(())
            },
            Err(e) => {
                proof {
                    assert(false);
                }
                Err(e)
            },
        }
    }

    /// Moves a pending run to `downloading` and persists that, so the
    /// status is durably visible before the download starts.
    pub fn begin_work(&mut self, repo: &mut JobRepository, now: i64) -> (r: Result<
        (),
        VideoRepositoryError,
    >)
        requires
            old(self).wf(),
            old(self).status is Pending,
            old(self).persisted(*old(repo)),
            old(repo).inv(),
        ensures
            r is Ok,
            final(repo).inv(),
            final(self).wf(),
            final(self).persisted(*final(repo)),
            final(self).status == JobStatus::Downloading,
            final(self).job.id == old(self).job.id,
            final(self).job.video_id == old(self).job.video_id,
            final(self).job.created_at == old(self).job.created_at,
            final(self).job.output_bucket_path == old(self).job.output_bucket_path,
            final(self).job.error is None,
            final(repo).lookup(old(self).job.id) matches Some(jv) && crate::domain::job_flat(jv)
                == final(self).job.record(),
            forall|other: u128|
                other != old(self).job.id ==> final(repo).lookup(other) == old(repo).lookup(other),
    {
        self.persist_transition(repo, JobStatus::Downloading, None, now)
    }

    /// Records the outcome of the stage just run and persists the
    /// transition: on success the next status of the ladder, on failure the
    /// terminal `failed` status with a non-empty error text.
    pub fn complete_stage(
        &mut self,
        repo: &mut JobRepository,
        outcome: StageOutcome,
        now: i64,
    ) -> (r: Result<(), VideoRepositoryError>)
        requires
            old(self).wf(),
            old(self).status.stage_spec() is Some,
            old(self).persisted(*old(repo)),
            old(repo).inv(),
        ensures
            r is Ok,
            final(repo).inv(),
            final(self).wf(),
            final(self).persisted(*final(repo)),
            outcome is Succeeded ==> final(self).status == old(self).status.next_spec()
                && final(self).job.error is None,
            outcome is Failed ==> final(self).status == JobStatus::Failed
                && (final(self).job.error matches Some(e) && e@.len() > 0),
            final(self).job.id == old(self).job.id,
            final(self).job.video_id == old(self).job.video_id,
            final(self).job.created_at == old(self).job.created_at,
            final(self).job.output_bucket_path == old(self).job.output_bucket_path,
            final(repo).lookup(old(self).job.id) matches Some(jv) && crate::domain::job_flat(jv)
                == final(self).job.record(),
            forall|other: u128|
                other != old(self).job.id ==> final(repo).lookup(other) == old(repo).lookup(other),
    {
        match outcome {
            StageOutcome::Succeeded => {
                let next = self.status.next();
                proof {
                    lemma_failed_code_distinct();
                }
                self.persist_transition(repo, next, None, now)
            },
            StageOutcome::Failed(msg) => {
                let mut text = String::from_str("stage failed: ");
                text.append(msg.as_str());
                proof {
                    reveal_strlit("stage failed: ");
                    assert(text@.len() > 0);
                }
                self.persist_transition(repo, JobStatus::Failed, Some(text), now)
            },
        }
    }

    /// Whether the run has reached a terminal status.
    pub fn is_finished(&self) -> (r: bool)
        ensures
            r == self.status.is_terminal(),
    {
        match self.status {
            JobStatus::Completed => true,
            JobStatus::Failed => true,
            _ => false,
        }
    }
}

/// Law: three successful stages from `downloading` reach `completed`, and a
/// terminal status never moves on.
pub proof fn lemma_success_ladder()
    ensures
        JobStatus::Downloading.next_spec().next_spec().next_spec() == JobStatus::Completed,
        forall|s: JobStatus| s.is_terminal() ==> #[trigger] s.next_spec() == s,
{
}

} // verus!
