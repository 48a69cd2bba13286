use encoder::db::Database;
use encoder::domain::{Job, Video};
use encoder::job_repository::JobRepository;
use encoder::repository::Repository;
use encoder::video_repository::VideoRepository;
use std::sync::Arc;

#[test]
fn test_video_repository_insert_and_find() {
    let mut video_repo = VideoRepository::new(Database::new());

    let new_video = Video::new("resource_123".to_string(), "/path/to/video.mp4".to_string());

    let inserted_video = video_repo
        .insert(&new_video)
        .expect("Failed to insert video");

    assert_eq!(inserted_video.id, new_video.id);

    let found_video = video_repo
        .find(new_video.id)
        .expect("Failed to find video");

    assert_eq!(found_video.id, new_video.id);
    assert_eq!(found_video.resource_id, new_video.resource_id);
    assert_eq!(found_video.file_path, new_video.file_path);
    assert_eq!(found_video.jobs.len(), 0);
}

#[test]
fn test_video_repository_find_with_jobs() {
    let mut video_repo = VideoRepository::new(Database::new());
    let new_video = Video::new(
        "resource_456".to_string(),
        "/path/to/video2.mp4".to_string(),
    );
    video_repo
        .insert(&new_video)
        .expect("Failed to insert video");

    let mut job_repo = JobRepository::new(video_repo.db);
    let video_arc = Arc::new(new_video.clone());

    let job1 = Job::new(
        "/output/path1".to_string(),
        "pending".to_string(),
        Arc::clone(&video_arc),
    );

    let job2 = Job::new(
        "/output/path2".to_string(),
        "completed".to_string(),
        Arc::clone(&video_arc),
    );

    job_repo.insert(&job1).expect("Failed to insert job1");

    job_repo.insert(&job2).expect("Failed to insert job2");

    let video_repo = VideoRepository::new(job_repo.db);
    let found_video = video_repo
        .find(new_video.id)
        .expect("Failed to find video with jobs");

    assert_eq!(found_video.id, new_video.id);
    assert_eq!(found_video.jobs.len(), 2);

    let job_ids: Vec<_> = found_video.jobs.iter().map(|j| j.id).collect();
    assert!(job_ids.contains(&job1.id));
    assert!(job_ids.contains(&job2.id));

    for job in &found_video.jobs {
        assert_eq!(job.video.id, new_video.id);
        assert_eq!(job.video_id, new_video.id);
    }
}

#[test]
fn test_job_repository_insert_and_find() {
    let mut video_repo = VideoRepository::new(Database::new());
    let new_video = Video::new(
        "resource_456".to_string(),
        "/path/to/video2.mp4".to_string(),
    );
    video_repo
        .insert(&new_video)
        .expect("Failed to insert video");

    let mut job_repo = JobRepository::new(video_repo.db);
    let video_arc = Arc::new(new_video);
    let new_job = Job::new("/output/path".to_string(), "pending".to_string(), video_arc);

    let inserted_job = job_repo
        .insert(&new_job)
        .expect("Failed to insert job");

    assert_eq!(inserted_job.id, new_job.id);

    let found_job = job_repo
        .find(new_job.id)
        .expect("Failed to find job");

    assert_eq!(found_job.id, new_job.id);
    assert_eq!(found_job.output_bucket_path, new_job.output_bucket_path);
    assert_eq!(found_job.status, new_job.status);
    assert_eq!(found_job.video.id, new_job.video.id);
}

#[test]
fn test_job_repository_update() {
    let mut video_repo = VideoRepository::new(Database::new());
    let new_video = Video::new(
        "resource_789".to_string(),
        "/path/to/video3.mp4".to_string(),
    );
    video_repo
        .insert(&new_video)
        .expect("Failed to insert video");

    let mut job_repo = JobRepository::new(video_repo.db);
    let video_arc = Arc::new(new_video);
    let mut new_job = Job::new(
        "/output/path2".to_string(),
        "pending".to_string(),
        video_arc,
    );

    job_repo
        .insert(&new_job)
        .expect("Failed to insert job");

    new_job.status = "completed".to_string();
    new_job.updated_at = chrono::Utc::now().timestamp_millis();

    let updated_job = job_repo
        .update(&new_job)
        .expect("Failed to update job");

    assert_eq!(updated_job.status, "completed");

    let found_job = job_repo
        .find(new_job.id)
        .expect("Failed to find updated job");

    assert_eq!(found_job.status, "completed");
}
