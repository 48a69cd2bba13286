//! The orchestrator's working-area and tool-invocation shapes.
//!
//! Every local path a job touches is derived deterministically from the
//! video's id under an explicitly threaded configuration, so repeated
//! attempts for one video reuse predictable names and two jobs for different
//! videos never collide. The argument lists of the two external tools and
//! the full set of paths to clean up are computed here, with their exact
//! shapes proved.

use crate::domain::Video;
use crate::ids::{id_text, uuid_text_of};
use crate::video_repository::VideoRepository;
use vstd::prelude::*;
use vstd::string::StringExecFns;

verus! {

/// Configuration threaded into the orchestrator at construction: the root
/// of the local working area and the packaging tool's install directory.
#[derive(Clone, Debug)]
pub struct ServiceConfig {
    pub local_storage_path: String,
    pub exec_dir: String,
}

impl ServiceConfig {
    pub fn new(local_storage_path: String, exec_dir: String) -> (r: ServiceConfig)
        ensures
            r.local_storage_path@ == local_storage_path@,
            r.exec_dir@ == exec_dir@,
    {
        ServiceConfig { local_storage_path, exec_dir }
    }
}

impl Default for ServiceConfig {
    /// The documented default: the platform temp directory as working area,
    /// and the packaging tool's usual install directory.
    fn default() -> (r: ServiceConfig)
        ensures
            r.local_storage_path@ == "/tmp"@,
            r.exec_dir@ == "/opt/bento4/bin/"@,
    {
        ServiceConfig {
            local_storage_path: "/tmp".to_owned(),
            exec_dir: "/opt/bento4/bin/".to_owned(),
        }
    }
}

/// The local download target of a video: `{root}/{video_id}.mp4`.
pub open spec fn download_dest_spec(root: Seq<char>, id: u128) -> Seq<char> {
    root + "/"@ + uuid_text_of(id) + ".mp4"@
}

/// The local fragmentation target of a video: `{root}/{video_id}.frag`.
pub open spec fn fragment_dest_spec(root: Seq<char>, id: u128) -> Seq<char> {
    root + "/"@ + uuid_text_of(id) + ".frag"@
}

/// The local packaged-output directory of a video: `{root}/{video_id}`.
pub open spec fn output_dir_spec(root: Seq<char>, id: u128) -> Seq<char> {
    root + "/"@ + uuid_text_of(id)
}

/// The pipeline driver's handle on one video: where to read it from, and
/// how its working area is laid out.
pub struct VideoService {
    pub video_repository: VideoRepository,
    pub video: Video,
    pub config: ServiceConfig,
}

impl VideoService {
    pub fn new(video_repository: VideoRepository, video: Video, config: ServiceConfig) -> (r: Self)
        ensures
            r.video_repository == video_repository,
            r.video == video,
            r.config == config,
    {
        VideoService { video_repository, video, config }
    }

    /// The object key to fetch from the blob-storage bucket.
    pub fn download_object(&self) -> (r: String)
        ensures
            r@ == self.video.file_path@,
    {
        self.video.file_path.clone()
    }

    /// `{root}/{video_id}{suffix}`.
    fn working_path(&self, suffix: &str) -> (r: String)
        ensures
            r@ == self.config.local_storage_path@ + "/"@ + uuid_text_of(self.video.id) + suffix@,
    {
        let mut s = self.config.local_storage_path.clone();
        s.append("/");
        let idt = id_text(self.video.id);
        s.append(idt.as_str());
        s.append(suffix);
        s
    }

    /// The local download target.
    pub fn download_dest(&self) -> (r: String)
        ensures
            r@ == download_dest_spec(self.config.local_storage_path@, self.video.id),
    {
        self.working_path(".mp4")
    }

    /// The local fragmentation target.
    pub fn fragment_dest(&self) -> (r: String)
        ensures
            r@ == fragment_dest_spec(self.config.local_storage_path@, self.video.id),
    {
        self.working_path(".frag")
    }

    /// The local packaged-output directory.
    pub fn output_dir(&self) -> (r: String)
        ensures
            r@ == output_dir_spec(self.config.local_storage_path@, self.video.id),
    {
        let r = self.working_path("");
        proof {
            reveal_strlit("");
            assert(r@ =~= output_dir_spec(self.config.local_storage_path@, self.video.id));
        }
        r
    }

    /// The fragmentation tool's argument shape: source, then destination.
    pub fn fragment_args(&self) -> (r: Vec<String>)
        ensures
            r@.len() == 2,
            r@[0]@ == download_dest_spec(self.config.local_storage_path@, self.video.id),
            r@[1]@ == fragment_dest_spec(self.config.local_storage_path@, self.video.id),
    {
        let mut v: Vec<String> = Vec::new();
        v.push(self.download_dest());
        v.push(self.fragment_dest());
        v
    }

    /// The packaging tool's argument shape: the fragmented file, segment-
    /// timeline packaging, the output directory, forced overwrite, and the
    /// tool install directory.
    pub fn encode_args(&self) -> (r: Vec<String>)
        ensures
            r@.len() == 7,
            r@[0]@ == fragment_dest_spec(self.config.local_storage_path@, self.video.id),
            r@[1]@ == "--use-segment-timeline"@,
            r@[2]@ == "-o"@,
            r@[3]@ == output_dir_spec(self.config.local_storage_path@, self.video.id),
            r@[4]@ == "-f"@,
            r@[5]@ == "--exec-dir"@,
            r@[6]@ == self.config.exec_dir@,
    {
        let mut v: Vec<String> = Vec::new();
        v.push(self.fragment_dest());
        v.push("--use-segment-timeline".to_owned());
        v.push("-o".to_owned());
        v.push(self.output_dir());
        v.push("-f".to_owned());
        v.push("--exec-dir".to_owned());
        v.push(self.config.exec_dir.clone());
        v
    }

    /// Every working path of this video, to be removed on every exit path:
    /// the downloaded file, the fragmented file, and the output directory.
    pub fn cleanup_paths(&self) -> (r: Vec<String>)
        ensures
            r@.len() == 3,
            r@[0]@ == download_dest_spec(self.config.local_storage_path@, self.video.id),
            r@[1]@ == fragment_dest_spec(self.config.local_storage_path@, self.video.id),
            r@[2]@ == output_dir_spec(self.config.local_storage_path@, self.video.id),
    {
        let mut v: Vec<String> = Vec::new();
        v.push(self.download_dest());
        v.push(self.fragment_dest());
        v.push(self.output_dir());
        v
    }
}

} // verus!
