use encoder::db::Database;
use encoder::domain::{Job, Video};
use encoder::error::{StoreErrorKind, VideoRepositoryError};
use encoder::job_repository::JobRepository;
use encoder::pipeline::{JobRun, JobStatus, StageKind, StageOutcome};
use encoder::repository::Repository;
use encoder::service::{ServiceConfig, VideoService};
use encoder::video_repository::VideoRepository;
use std::sync::Arc;

fn insert_video(resource_id: &str, file_path: &str) -> (Video, JobRepository) {
    let mut video_repo = VideoRepository::new(Database::new());
    let video = Video::new(resource_id.to_string(), file_path.to_string());
    video_repo.insert(&video).expect("Failed to insert video");
    (video, JobRepository::new(video_repo.db))
}

#[test]
fn pending_job_runs_to_completion() {
    let (video, mut job_repo) = insert_video("resource_v1", "videos/v1/src.mp4");
    let job = Job::new(
        "/output/v1".to_string(),
        "pending".to_string(),
        Arc::new(video.clone()),
    );
    let job_id = job.id;
    let created = job.created_at;

    let mut run = JobRun::start(&mut job_repo, job).expect("Failed to start run");
    assert_eq!(run.status, JobStatus::Pending);
    assert!(run.current_stage().is_none());

    run.begin_work(&mut job_repo, created + 1)
        .expect("Failed to begin work");
    assert_eq!(run.status, JobStatus::Downloading);
    assert_eq!(run.current_stage(), Some(StageKind::Download));
    let observed = job_repo.find(job_id).expect("Failed to observe job");
    assert_eq!(observed.status, "downloading");

    run.complete_stage(&mut job_repo, StageOutcome::Succeeded, created + 2)
        .expect("Failed to finish download");
    assert_eq!(run.status, JobStatus::Fragmenting);
    assert_eq!(run.current_stage(), Some(StageKind::Fragment));

    run.complete_stage(&mut job_repo, StageOutcome::Succeeded, created + 3)
        .expect("Failed to finish fragment");
    assert_eq!(run.status, JobStatus::Encoding);
    assert_eq!(run.current_stage(), Some(StageKind::Encode));

    run.complete_stage(&mut job_repo, StageOutcome::Succeeded, created + 4)
        .expect("Failed to finish encode");
    assert_eq!(run.status, JobStatus::Completed);
    assert!(run.is_finished());
    assert!(run.current_stage().is_none());

    let found = job_repo.find(job_id).expect("Failed to find finished job");
    assert_eq!(found.status, "completed");
    assert!(found.error.is_none());
    assert_eq!(found.created_at, created);
    assert_eq!(found.updated_at, created + 4);
    assert_eq!(found.video_id, video.id);
}

#[test]
fn fragment_failure_marks_job_failed() {
    let (video, mut job_repo) = insert_video("resource_v1", "videos/v1/src.mp4");
    let job = Job::new(
        "/output/v1".to_string(),
        "pending".to_string(),
        Arc::new(video.clone()),
    );
    let job_id = job.id;
    let created = job.created_at;

    let mut run = JobRun::start(&mut job_repo, job).expect("Failed to start run");
    run.begin_work(&mut job_repo, created + 1)
        .expect("Failed to begin work");
    run.complete_stage(&mut job_repo, StageOutcome::Succeeded, created + 2)
        .expect("Failed to finish download");
    assert_eq!(run.current_stage(), Some(StageKind::Fragment));

    run.complete_stage(
        &mut job_repo,
        StageOutcome::Failed("mp4fragment exited with status 1".to_string()),
        created + 3,
    )
    .expect("Failed to record failure");
    assert_eq!(run.status, JobStatus::Failed);
    assert!(run.is_finished());

    let found = job_repo.find(job_id).expect("Failed to find failed job");
    assert_eq!(found.status, "failed");
    let error = found.error.expect("a failed job carries an error");
    assert!(!error.is_empty());
    assert!(error.contains("mp4fragment exited with status 1"));

    // cleanup still covers the downloaded file
    let video_repo = VideoRepository::new(job_repo.db);
    let config = ServiceConfig::new("/tmp".to_string(), "/opt/bento4/bin/".to_string());
    let service = VideoService::new(video_repo, video.clone(), config);
    let paths = service.cleanup_paths();
    let download = format!("/tmp/{}.mp4", uuid::Uuid::from_u128(video.id));
    assert!(paths.contains(&download));
}

#[test]
fn find_on_missing_id_is_not_found_for_both_stores() {
    let video_repo = VideoRepository::new(Database::new());
    let absent = 12345u128;
    assert_eq!(
        video_repo.find(absent).unwrap_err(),
        VideoRepositoryError(StoreErrorKind::NotFound)
    );

    let job_repo = JobRepository::new(video_repo.db);
    assert_eq!(
        job_repo.find(absent).unwrap_err(),
        VideoRepositoryError(StoreErrorKind::NotFound)
    );
}

#[test]
fn insert_duplicate_video_is_rejected() {
    let mut video_repo = VideoRepository::new(Database::new());
    let video = Video::new("resource_dup".to_string(), "/path/dup.mp4".to_string());
    video_repo.insert(&video).expect("Failed to insert video");
    assert_eq!(
        video_repo.insert(&video).unwrap_err(),
        VideoRepositoryError(StoreErrorKind::DuplicateId)
    );
}

#[test]
fn insert_job_with_dangling_video_is_rejected() {
    let video = Video::new("resource_x".to_string(), "/path/x.mp4".to_string());
    let job = Job::new(
        "/output/x".to_string(),
        "pending".to_string(),
        Arc::new(video),
    );
    let mut job_repo = JobRepository::new(Database::new());
    assert_eq!(
        job_repo.insert(&job).unwrap_err(),
        VideoRepositoryError(StoreErrorKind::MissingVideo)
    );
}

#[test]
fn insert_duplicate_job_is_rejected() {
    let (video, mut job_repo) = insert_video("resource_y", "/path/y.mp4");
    let job = Job::new(
        "/output/y".to_string(),
        "pending".to_string(),
        Arc::new(video),
    );
    job_repo.insert(&job).expect("Failed to insert job");
    assert_eq!(
        job_repo.insert(&job).unwrap_err(),
        VideoRepositoryError(StoreErrorKind::DuplicateId)
    );
}

#[test]
fn update_of_missing_job_is_not_found() {
    let video = Video::new("resource_z".to_string(), "/path/z.mp4".to_string());
    let job = Job::new(
        "/output/z".to_string(),
        "pending".to_string(),
        Arc::new(video),
    );
    let mut job_repo = JobRepository::new(Database::new());
    assert_eq!(
        job_repo.update(&job).unwrap_err(),
        VideoRepositoryError(StoreErrorKind::NotFound)
    );
}

#[test]
fn update_of_video_is_unsupported() {
    let mut video_repo = VideoRepository::new(Database::new());
    let video = Video::new("resource_u".to_string(), "/path/u.mp4".to_string());
    video_repo.insert(&video).expect("Failed to insert video");
    assert_eq!(
        video_repo.update(&video).unwrap_err(),
        VideoRepositoryError(StoreErrorKind::Unsupported)
    );
}

#[test]
fn update_rewrites_exactly_the_mutable_fields() {
    let (video, mut job_repo) = insert_video("resource_w", "/path/w.mp4");
    let mut job = Job::new(
        "/output/w".to_string(),
        "pending".to_string(),
        Arc::new(video.clone()),
    );
    job_repo.insert(&job).expect("Failed to insert job");
    let created = job.created_at;

    job.status = "downloading".to_string();
    job.output_bucket_path = "/output/w2".to_string();
    job.updated_at = created + 60_000;
    job_repo.update(&job).expect("Failed to update job");

    let found = job_repo.find(job.id).expect("Failed to find job");
    assert_eq!(found.status, "downloading");
    assert_eq!(found.output_bucket_path, "/output/w2");
    assert_eq!(found.updated_at, created + 60_000);
    assert_eq!(found.created_at, created);
    assert_eq!(found.video_id, video.id);
    assert!(found.error.is_none());
}

#[test]
fn job_new_snapshots_its_parent() {
    let video = Video::new("resource_s".to_string(), "/path/s.mp4".to_string());
    let job = Job::new(
        "/output/s".to_string(),
        "pending".to_string(),
        Arc::new(video.clone()),
    );
    assert_eq!(job.video_id, video.id);
    assert_eq!(job.video.id, video.id);
    assert!(job.error.is_none());
    assert_eq!(job.created_at, job.updated_at);
    assert_eq!(job.status, "pending");
    assert_eq!(job.output_bucket_path, "/output/s");
}

#[test]
fn status_codes_and_ladder() {
    assert_eq!(JobStatus::Pending.code(), "pending");
    assert_eq!(JobStatus::Downloading.code(), "downloading");
    assert_eq!(JobStatus::Fragmenting.code(), "fragmenting");
    assert_eq!(JobStatus::Encoding.code(), "encoding");
    assert_eq!(JobStatus::Completed.code(), "completed");
    assert_eq!(JobStatus::Failed.code(), "failed");

    assert_eq!(JobStatus::Pending.next(), JobStatus::Downloading);
    assert_eq!(JobStatus::Downloading.next(), JobStatus::Fragmenting);
    assert_eq!(JobStatus::Fragmenting.next(), JobStatus::Encoding);
    assert_eq!(JobStatus::Encoding.next(), JobStatus::Completed);
    assert_eq!(JobStatus::Completed.next(), JobStatus::Completed);
    assert_eq!(JobStatus::Failed.next(), JobStatus::Failed);

    assert_eq!(JobStatus::Downloading.stage(), Some(StageKind::Download));
    assert_eq!(JobStatus::Fragmenting.stage(), Some(StageKind::Fragment));
    assert_eq!(JobStatus::Encoding.stage(), Some(StageKind::Encode));
    assert_eq!(JobStatus::Pending.stage(), None);
    assert_eq!(JobStatus::Completed.stage(), None);
    assert_eq!(JobStatus::Failed.stage(), None);
}

#[test]
fn error_descriptions_are_not_empty() {
    assert!(!VideoRepositoryError(StoreErrorKind::NotFound).describe().is_empty());
    assert!(!VideoRepositoryError(StoreErrorKind::DuplicateId).describe().is_empty());
    assert!(!VideoRepositoryError(StoreErrorKind::MissingVideo).describe().is_empty());
    assert!(!VideoRepositoryError(StoreErrorKind::Unsupported).describe().is_empty());
}
