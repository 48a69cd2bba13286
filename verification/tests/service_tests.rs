use encoder::db::Database;
use encoder::domain::Video;
use encoder::service::{ServiceConfig, VideoService};
use encoder::video_repository::VideoRepository;

fn service_for(root: &str, exec_dir: &str) -> (Video, VideoService) {
    let video_repo = VideoRepository::new(Database::new());
    let video = Video::new("resource_p".to_string(), "videos/v1/src.mp4".to_string());
    let config = ServiceConfig::new(root.to_string(), exec_dir.to_string());
    let service = VideoService::new(video_repo, video.clone(), config);
    (video, service)
}

#[test]
fn working_paths_are_derived_from_the_video_id() {
    let (video, service) = service_for("/work", "/opt/bento4/bin/");
    let id = uuid::Uuid::from_u128(video.id);
    assert_eq!(service.download_dest(), format!("/work/{id}.mp4"));
    assert_eq!(service.fragment_dest(), format!("/work/{id}.frag"));
    assert_eq!(service.output_dir(), format!("/work/{id}"));
    assert_eq!(service.download_object(), "videos/v1/src.mp4");
}

#[test]
fn fragment_args_name_source_then_destination() {
    let (video, service) = service_for("/work", "/opt/bento4/bin/");
    let id = uuid::Uuid::from_u128(video.id);
    let args = service.fragment_args();
    assert_eq!(
        args,
        vec![format!("/work/{id}.mp4"), format!("/work/{id}.frag")]
    );
}

#[test]
fn encode_args_have_the_fixed_shape() {
    let (video, service) = service_for("/work", "/opt/bento4/bin/");
    let id = uuid::Uuid::from_u128(video.id);
    let args = service.encode_args();
    assert_eq!(
        args,
        vec![
            format!("/work/{id}.frag"),
            "--use-segment-timeline".to_string(),
            "-o".to_string(),
            format!("/work/{id}"),
            "-f".to_string(),
            "--exec-dir".to_string(),
            "/opt/bento4/bin/".to_string(),
        ]
    );
}

#[test]
fn cleanup_covers_every_working_path() {
    let (video, service) = service_for("/work", "/opt/bento4/bin/");
    let id = uuid::Uuid::from_u128(video.id);
    let paths = service.cleanup_paths();
    assert_eq!(paths.len(), 3);
    assert!(paths.contains(&format!("/work/{id}.mp4")));
    assert!(paths.contains(&format!("/work/{id}.frag")));
    assert!(paths.contains(&format!("/work/{id}")));
}

#[test]
fn default_config_uses_the_temp_directory() {
    let config = ServiceConfig::default();
    assert_eq!(config.local_storage_path, "/tmp");
    assert_eq!(config.exec_dir, "/opt/bento4/bin/");
}

#[test]
fn different_videos_use_different_working_paths() {
    let (_, first) = service_for("/work", "/opt/bento4/bin/");
    let (_, second) = service_for("/work", "/opt/bento4/bin/");
    assert_ne!(first.download_dest(), second.download_dest());
    assert_ne!(first.output_dir(), second.output_dir());
}
