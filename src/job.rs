//! Job descriptions: what a validated request asks the service to do.
use vstd::prelude::*;
use vstd::string::StringExecFns;

verus! {

/// The view of an optional string.
pub open spec fn opt_text(o: Option<String>) -> Option<Seq<char>> {
    match o {
        Some(s) => Some(s@),
        None => None,
    }
}

/// Transcoding of an uploaded file.
pub struct ConversionJob {
    pub job_id: String,
    /// Path of the staged upload.
    pub input_path: String,
    pub format: String,
    pub quality: Option<String>,
    pub bitrate_mode: String,
    pub sample_rate: String,
    pub channels: String,
    pub fade_in: bool,
    pub fade_out: bool,
    pub reverse: bool,
}

/// Fetching a remote video and extracting its audio.
pub struct RemoteJob {
    pub job_id: String,
    pub url: String,
    pub format: String,
    pub quality: Option<String>,
}

/// Rewriting the tags of an uploaded file without re-encoding it.
pub struct MetadataJob {
    pub job_id: String,
    /// Path of the staged upload.
    pub input_path: String,
    pub artist: Option<String>,
    pub title: Option<String>,
    pub album: Option<String>,
    pub genre: Option<String>,
}

/// One job of any kind.
pub enum JobDescriptor {
    LocalConversion(ConversionJob),
    RemoteFetch(RemoteJob),
    MetadataRewrite(MetadataJob),
}

/// Why a request could not become a job.
#[derive(PartialEq, Eq, Structural, Clone, Copy, Debug)]
pub enum RequestError {
    /// A required field is missing or unusable.
    MalformedRequest,
    /// No file was uploaded where one is required.
    MissingPayload,
}

/// The two directories the service owns: staged uploads and finished artifacts.
pub struct ArtifactStore {
    pub staging_dir: String,
    pub output_dir: String,
}

/// `dir/name`.
pub open spec fn path_in(dir: Seq<char>, name: Seq<char>) -> Seq<char> {
    dir + seq!['/'] + name
}

impl ArtifactStore {
    /// A store over the two given directories.
    pub fn new(staging_dir: String, output_dir: String) -> (r: ArtifactStore)
        ensures
            r.staging_dir@ == staging_dir@,
            r.output_dir@ == output_dir@,
    {
        ArtifactStore { staging_dir, output_dir }
    }

    /// The path of a file of the staging directory.
    pub fn staging_path(&self, name: &str) -> (r: String)
        ensures
            r@ == path_in(self.staging_dir@, name@),
    {
        let mut r = crate::text::joined(self.staging_dir.as_str(), "/");
        r.append(name);
        proof {
            reveal_strlit("/");
        }
        r
    }

    /// The path of a file of the output directory.
    pub fn output_path(&self, name: &str) -> (r: String)
        ensures
            r@ == path_in(self.output_dir@, name@),
    {
        let mut r = crate::text::joined(self.output_dir.as_str(), "/");
        r.append(name);
        proof {
            reveal_strlit("/");
        }
        r
    }
}

} // verus!
