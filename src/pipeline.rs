//! The orchestrator: a state machine that says which invocation to run next,
//! when to remove the staged input, and what to answer. The caller performs
//! each action and reports back.
use vstd::prelude::*;
use vstd::string::StringExecFns;
use crate::ids::{output_filename, output_name, path_extension, extension_of, file_name_of};
use crate::job::{ArtifactStore, ConversionJob, JobDescriptor, MetadataJob, RemoteJob, path_in};
use crate::plan::{
    Invocation, conversion_args, fetch_args, extract_args, metadata_args, plan_conversion,
    plan_metadata, plan_remote,
};
use crate::text::{joined, owned};

verus! {

/// What one external tool run came to: whether it exited with status zero,
/// and what it wrote to its diagnostic stream.
pub struct ProcessOutcome {
    pub success: bool,
    pub diagnostic: String,
}

/// The answer to a request.
pub struct ApiResponse {
    pub success: bool,
    pub message: String,
    pub file_id: Option<String>,
}

/// The three kinds of job.
#[derive(PartialEq, Eq, Structural, Clone, Copy, Debug)]
pub enum JobKind {
    LocalConversion,
    RemoteFetch,
    MetadataRewrite,
}

/// Where a run stands.
#[derive(PartialEq, Eq, Structural, Clone, Copy, Debug)]
pub enum Phase {
    /// Invocations are being run, one after the other.
    Executing,
    /// Every invocation has been run, or one failed: the staged input is to be removed.
    Finalizing,
    Succeeded,
    Failed,
}

/// What the caller is to do next.
#[derive(PartialEq, Eq, Structural, Clone, Copy, Debug)]
pub enum Action {
    /// Run the invocation with this index.
    Run(usize),
    /// Remove the staged input file; a failure to do so is only worth a warning.
    RemoveStaged,
    /// Send the response.
    Respond,
}

/// The message of a successful job.
pub open spec fn success_message(kind: JobKind) -> Seq<char> {
    match kind {
        JobKind::LocalConversion => "Conversion successful"@,
        JobKind::RemoteFetch => "YouTube conversion successful"@,
        JobKind::MetadataRewrite => "Metadata updated successfully"@,
    }
}

/// What precedes the diagnostic text when invocation `step` of a job fails.
pub open spec fn failure_prefix(kind: JobKind, step: int) -> Seq<char> {
    match kind {
        JobKind::LocalConversion => "Conversion failed: "@,
        JobKind::RemoteFetch => if step == 0 {
            "YouTube download failed: "@
        } else {
            "Audio extraction failed: "@
        },
        JobKind::MetadataRewrite => "Metadata update failed: "@,
    }
}

fn success_text(kind: JobKind) -> (r: String)
    ensures
        r@ == success_message(kind),
{
    match kind {
        JobKind::LocalConversion => owned("Conversion successful"),
        JobKind::RemoteFetch => owned("YouTube conversion successful"),
        JobKind::MetadataRewrite => owned("Metadata updated successfully"),
    }
}

fn failure_text(kind: JobKind, step: usize, diagnostic: &str) -> (r: String)
    ensures
        r@ == failure_prefix(kind, step as int) + diagnostic@,
{
    match kind {
        JobKind::LocalConversion => joined("Conversion failed: ", diagnostic),
        JobKind::RemoteFetch => if step == 0 {
            joined("YouTube download failed: ", diagnostic)
        } else {
            joined("Audio extraction failed: ", diagnostic)
        },
        JobKind::MetadataRewrite => joined("Metadata update failed: ", diagnostic),
    }
}

/// One job on its way from planned invocations to a response.
pub struct JobRun {
    pub kind: JobKind,
    pub invocations: Vec<Invocation>,
    /// How many invocations have succeeded.
    pub completed: usize,
    /// The staged input to remove once the job is over.
    pub staged_path: String,
    /// The name of the artifact, handed out on success.
    pub output_name: String,
    pub phase: Phase,
    /// The failure message, once an invocation has failed.
    pub failure: Option<String>,
    /// Whether removal of the staged input has been attempted.
    pub cleaned: bool,
}

impl JobRun {
    /// The run's invariant.
    pub open spec fn wf(&self) -> bool {
        &&& self.invocations@.len() > 0
        &&& self.completed <= self.invocations@.len()
        &&& (self.phase == Phase::Executing) ==> (self.completed < self.invocations@.len()
            && self.failure is None && !self.cleaned)
        &&& (self.phase == Phase::Finalizing) ==> !self.cleaned
        &&& (self.phase != Phase::Executing && self.failure is None) ==> self.completed
            == self.invocations@.len()
        &&& (self.phase == Phase::Succeeded) ==> (self.failure is None && self.cleaned)
        &&& (self.phase == Phase::Failed) ==> (self.failure is Some && self.cleaned)
    }

    /// A fresh run: nothing has been run yet.
    pub open spec fn is_fresh(&self) -> bool {
        &&& self.wf()
        &&& self.phase == Phase::Executing
        &&& self.completed == 0
    }

    /// What to do next: run the next invocation while executing, remove the
    /// staged input once done or failed, then respond.
    pub fn next_action(&self) -> (r: Action)
        requires
            self.wf(),
        ensures
            self.phase == Phase::Executing <==> r == Action::Run(self.completed),
            self.phase == Phase::Finalizing <==> r == Action::RemoveStaged,
            (self.phase == Phase::Succeeded || self.phase == Phase::Failed) <==> r
                == Action::Respond,
            r == Action::Respond ==> self.cleaned,
    {
        match self.phase {
            Phase::Executing => Action::Run(self.completed),
            Phase::Finalizing => Action::RemoveStaged,
            _ => Action::Respond,
        }
    }

    /// Takes in the outcome of the invocation that was running. On success
    /// the next one is due, or finalizing when it was the last; on failure
    /// the rest are skipped and the failure message is kept.
    pub fn record_outcome(&mut self, outcome: ProcessOutcome)
        requires
            old(self).wf(),
            old(self).phase == Phase::Executing,
        ensures
            final(self).wf(),
            final(self).kind == old(self).kind,
            final(self).invocations == old(self).invocations,
            final(self).staged_path == old(self).staged_path,
            final(self).output_name == old(self).output_name,
            final(self).cleaned == old(self).cleaned,
            outcome.success ==> {
                &&& final(self).completed == old(self).completed + 1
                &&& final(self).failure is None
                &&& final(self).phase == if final(self).completed == old(
                    self,
                ).invocations@.len() {
                    Phase::Finalizing
                } else {
                    Phase::Executing
                }
            },
            !outcome.success ==> {
                &&& final(self).completed == old(self).completed
                &&& final(self).phase == Phase::Finalizing
                &&& final(self).failure matches Some(m) && m@ == failure_prefix(
                    old(self).kind,
                    old(self).completed as int,
                ) + outcome.diagnostic@
            },
    {
        let n = self.invocations.len();
        if outcome.success {
            self.completed = self.completed + 1;
            if self.completed == n {
                self.phase = Phase::Finalizing;
            }
        } else {
            self.failure = Some(failure_text(self.kind, self.completed, outcome.diagnostic.as_str()));
            self.phase = Phase::Finalizing;
        }
    }

    /// Takes note that removal of the staged input was attempted, whatever
    /// came of it: the job is then over.
    pub fn record_cleanup(&mut self)
        requires
            old(self).wf(),
            old(self).phase == Phase::Finalizing,
        ensures
            final(self).wf(),
            final(self).cleaned,
            final(self).phase == if old(self).failure is None {
                Phase::Succeeded
            } else {
                Phase::Failed
            },
            final(self).kind == old(self).kind,
            final(self).invocations == old(self).invocations,
            final(self).completed == old(self).completed,
            final(self).failure == old(self).failure,
            final(self).staged_path == old(self).staged_path,
            final(self).output_name == old(self).output_name,
    {
        self.cleaned = true;
        self.phase = match self.failure {
            None => Phase::Succeeded,
            Some(_) => Phase::Failed,
        };
    }

    /// The response of a finished job: the artifact's name on success; on
    /// failure no name, and the message holds the tool's diagnostic text.
    pub fn response(&self) -> (r: ApiResponse)
        requires
            self.wf(),
            self.phase == Phase::Succeeded || self.phase == Phase::Failed,
        ensures
            r.success == (self.phase == Phase::Succeeded),
            self.phase == Phase::Succeeded ==> {
                &&& r.message@ == success_message(self.kind)
                &&& r.file_id matches Some(f) && f@ == self.output_name@
            },
            self.phase == Phase::Failed ==> {
                &&& r.message@ == self.failure.unwrap()@
                &&& r.file_id is None
            },
    {
        match &self.failure {
            None => ApiResponse {
                success: true,
                message: success_text(self.kind),
                file_id: Some(self.output_name.clone()),
            },
            Some(m) => ApiResponse { success: false, message: m.clone(), file_id: None },
        }
    }
}

impl JobRun {
    fn start(kind: JobKind, invocations: Vec<Invocation>, staged_path: String, output_name: String) -> (r: JobRun)
        requires
            invocations@.len() > 0,
        ensures
            r.is_fresh(),
            r.kind == kind,
            r.invocations == invocations,
            r.staged_path == staged_path,
            r.output_name == output_name,
    {
        JobRun {
            kind,
            invocations,
            completed: 0,
            staged_path,
            output_name,
            phase: Phase::Executing,
            failure: None,
            cleaned: false,
        }
    }

    /// The run of a local conversion: one transcoding into
    /// `{job_id}.{format}` in the output directory; the staged upload is removed at the end.
    pub fn for_conversion(job: ConversionJob, store: &ArtifactStore) -> (r: JobRun)
        ensures
            r.is_fresh(),
            r.kind == JobKind::LocalConversion,
            r.output_name@ == output_name(job.job_id@, job.format@),
            r.staged_path@ == job.input_path@,
            r.invocations@.len() == 1,
            r.invocations@[0].program@ == "ffmpeg"@,
            r.invocations@[0].arg_texts() == conversion_args(
                job,
                path_in(store.output_dir@, output_name(job.job_id@, job.format@)),
            ),
    {
        let name = output_filename(job.job_id.as_str(), job.format.as_str());
        let out = store.output_path(name.as_str());
        let inv = plan_conversion(&job, out.as_str());
        let mut invocations: Vec<Invocation> = Vec::new();
        invocations.push(inv);
        JobRun::start(JobKind::LocalConversion, invocations, job.input_path, name)
    }

    /// The run of a remote job: fetch into `{job_id}.mp4` in the staging
    /// directory, then extract into `{job_id}.{format}` in the output
    /// directory; the fetched container is removed at the end.
    pub fn for_remote(job: RemoteJob, store: &ArtifactStore) -> (r: JobRun)
        ensures
            r.is_fresh(),
            r.kind == JobKind::RemoteFetch,
            r.output_name@ == output_name(job.job_id@, job.format@),
            r.staged_path@ == path_in(store.staging_dir@, output_name(job.job_id@, "mp4"@)),
            r.invocations@.len() == 2,
            r.invocations@[0].program@ == "yt-dlp"@,
            r.invocations@[0].arg_texts() == fetch_args(job, r.staged_path@),
            r.invocations@[1].program@ == "ffmpeg"@,
            r.invocations@[1].arg_texts() == extract_args(
                job,
                r.staged_path@,
                path_in(store.output_dir@, output_name(job.job_id@, job.format@)),
            ),
    {
        let video = output_filename(job.job_id.as_str(), "mp4");
        let staged = store.staging_path(video.as_str());
        let name = output_filename(job.job_id.as_str(), job.format.as_str());
        let out = store.output_path(name.as_str());
        let invocations = plan_remote(&job, staged.as_str(), out.as_str());
        JobRun::start(JobKind::RemoteFetch, invocations, staged, name)
    }

    /// The run of a metadata rewrite: one stream copy into `{job_id}.{ext}`
    /// in the output directory, where `ext` is the upload's extension, or
    /// `mp3` when it has none; the staged upload is removed at the end.
    pub fn for_metadata(job: MetadataJob, store: &ArtifactStore) -> (r: JobRun)
        ensures
            r.is_fresh(),
            r.kind == JobKind::MetadataRewrite,
            r.output_name@ == output_name(
                job.job_id@,
                match extension_of(file_name_of(job.input_path@)) {
                    Some(e) => e,
                    None => "mp3"@,
                },
            ),
            r.staged_path@ == job.input_path@,
            r.invocations@.len() == 1,
            r.invocations@[0].program@ == "ffmpeg"@,
            r.invocations@[0].arg_texts() == metadata_args(
                job,
                path_in(store.output_dir@, r.output_name@),
            ),
    {
        let ext = match path_extension(job.input_path.as_str()) {
            Some(e) => e,
            None => owned("mp3"),
        };
        let name = output_filename(job.job_id.as_str(), ext.as_str());
        let out = store.output_path(name.as_str());
        let inv = plan_metadata(&job, out.as_str());
        let mut invocations: Vec<Invocation> = Vec::new();
        invocations.push(inv);
        JobRun::start(JobKind::MetadataRewrite, invocations, job.input_path, name)
    }
}

impl JobRun {
    /// The run of any job, by its kind.
    pub fn for_job(job: JobDescriptor, store: &ArtifactStore) -> (r: JobRun)
        ensures
            r.is_fresh(),
            r.kind == match job {
                JobDescriptor::LocalConversion(_) => JobKind::LocalConversion,
                JobDescriptor::RemoteFetch(_) => JobKind::RemoteFetch,
                JobDescriptor::MetadataRewrite(_) => JobKind::MetadataRewrite,
            },
            match job {
                JobDescriptor::LocalConversion(j) => {
                    &&& r.output_name@ == output_name(j.job_id@, j.format@)
                    &&& r.staged_path@ == j.input_path@
                    &&& r.invocations@.len() == 1
                    &&& r.invocations@[0].program@ == "ffmpeg"@
                    &&& r.invocations@[0].arg_texts() == conversion_args(
                        j,
                        path_in(store.output_dir@, output_name(j.job_id@, j.format@)),
                    )
                },
                JobDescriptor::RemoteFetch(j) => {
                    &&& r.output_name@ == output_name(j.job_id@, j.format@)
                    &&& r.staged_path@ == path_in(
                        store.staging_dir@,
                        output_name(j.job_id@, "mp4"@),
                    )
                    &&& r.invocations@.len() == 2
                    &&& r.invocations@[0].program@ == "yt-dlp"@
                    &&& r.invocations@[0].arg_texts() == fetch_args(j, r.staged_path@)
                    &&& r.invocations@[1].program@ == "ffmpeg"@
                    &&& r.invocations@[1].arg_texts() == extract_args(
                        j,
                        r.staged_path@,
                        path_in(store.output_dir@, output_name(j.job_id@, j.format@)),
                    )
                },
                JobDescriptor::MetadataRewrite(j) => {
                    &&& r.output_name@ == output_name(
                        j.job_id@,
                        match extension_of(file_name_of(j.input_path@)) {
                            Some(e) => e,
                            None => "mp3"@,
                        },
                    )
                    &&& r.staged_path@ == j.input_path@
                    &&& r.invocations@.len() == 1
                    &&& r.invocations@[0].program@ == "ffmpeg"@
                    &&& r.invocations@[0].arg_texts() == metadata_args(
                        j,
                        path_in(store.output_dir@, r.output_name@),
                    )
                },
            },
    {
        match job {
            JobDescriptor::LocalConversion(j) => JobRun::for_conversion(j, store),
            JobDescriptor::RemoteFetch(j) => JobRun::for_remote(j, store),
            JobDescriptor::MetadataRewrite(j) => JobRun::for_metadata(j, store),
        }
    }
}

/// A finished job has had removal of its staged input attempted, whichever way it ended.
pub proof fn lemma_finished_runs_were_cleaned(run: JobRun)
    requires
        run.wf(),
        run.phase == Phase::Succeeded || run.phase == Phase::Failed,
    ensures
        run.cleaned,
{
}

/// A job succeeds only when every one of its invocations succeeded.
pub proof fn lemma_success_needs_every_invocation(run: JobRun)
    requires
        run.wf(),
        run.phase == Phase::Succeeded,
    ensures
        run.completed == run.invocations@.len(),
        run.failure is None,
{
}

} // verus!
