use anytrack::job::{ArtifactStore, JobDescriptor, RemoteJob};
use anytrack::pipeline::{Action, JobKind, JobRun, Phase, ProcessOutcome};
use anytrack::request::{ConversionForm, FormField};

const ID: &str = "0b3f6a2e-9c1d-4e7a-8f00-123456789abc";

fn store() -> ArtifactStore {
    ArtifactStore::new("uploads".to_string(), "outputs".to_string())
}

fn remote_run() -> JobRun {
    let job = RemoteJob::from_request(
        ID.to_string(),
        Some("https://example/video".to_string()),
        Some("mp3".to_string()),
        None,
    )
    .ok()
    .unwrap();
    JobRun::for_remote(job, &store())
}

fn ok() -> ProcessOutcome {
    ProcessOutcome { success: true, diagnostic: String::new() }
}

#[test]
fn remote_success_runs_both_then_cleans_then_responds() {
    let mut run = remote_run();
    assert_eq!(run.next_action(), Action::Run(0));
    run.record_outcome(ok());
    assert_eq!(run.next_action(), Action::Run(1));
    run.record_outcome(ok());
    assert_eq!(run.next_action(), Action::RemoveStaged);
    run.record_cleanup();
    assert_eq!(run.phase, Phase::Succeeded);
    assert_eq!(run.next_action(), Action::Respond);
    let resp = run.response();
    assert!(resp.success);
    assert_eq!(resp.message, "YouTube conversion successful");
    assert!(resp.file_id.unwrap().ends_with(".mp3"));
}

#[test]
fn failed_fetch_skips_extraction_and_still_cleans() {
    let mut run = remote_run();
    run.record_outcome(ProcessOutcome { success: false, diagnostic: "ERROR: 404".to_string() });
    assert_eq!(run.next_action(), Action::RemoveStaged);
    run.record_cleanup();
    assert_eq!(run.phase, Phase::Failed);
    assert_eq!(run.completed, 0);
    let resp = run.response();
    assert!(!resp.success);
    assert!(resp.file_id.is_none());
    assert_eq!(resp.message, "YouTube download failed: ERROR: 404");
}

#[test]
fn failed_extraction_reports_its_own_message() {
    let mut run = remote_run();
    run.record_outcome(ok());
    run.record_outcome(ProcessOutcome { success: false, diagnostic: "bad codec".to_string() });
    run.record_cleanup();
    assert_eq!(run.response().message, "Audio extraction failed: bad codec");
}

#[test]
fn tool_failure_gives_no_file_and_the_diagnostic() {
    let mut form = ConversionForm::with_job_id(ID.to_string());
    form.set_text(FormField::Format, b"xyz".to_vec());
    form.stage_upload(Some("in.wav".to_string()));
    let mut run = JobRun::for_conversion(form.finish(&store()).ok().unwrap(), &store());
    run.record_outcome(ProcessOutcome {
        success: false,
        diagnostic: "Unknown encoder 'xyz'".to_string(),
    });
    assert_eq!(run.next_action(), Action::RemoveStaged);
    run.record_cleanup();
    let resp = run.response();
    assert!(!resp.success);
    assert_eq!(resp.file_id, None);
    assert!(resp.message.contains("Unknown encoder 'xyz'"));
    assert!(resp.message.starts_with("Conversion failed: "));
}

#[test]
fn response_only_after_cleanup() {
    let mut form = ConversionForm::with_job_id(ID.to_string());
    form.stage_upload(Some("in.wav".to_string()));
    let mut run = JobRun::for_conversion(form.finish(&store()).ok().unwrap(), &store());
    assert!(!run.cleaned);
    run.record_outcome(ok());
    assert_eq!(run.phase, Phase::Finalizing);
    assert_ne!(run.next_action(), Action::Respond);
    run.record_cleanup();
    assert!(run.cleaned);
    assert_eq!(run.next_action(), Action::Respond);
    let resp = run.response();
    assert_eq!(resp.message, "Conversion successful");
    assert_eq!(resp.file_id, Some(format!("{}.mp3", ID)));
    assert_eq!(run.staged_path, format!("uploads/{}_in.wav", ID));
}

#[test]
fn any_job_gets_the_run_of_its_kind() {
    let job = RemoteJob::from_request(
        ID.to_string(),
        Some("https://example/video".to_string()),
        Some("m4a".to_string()),
        None,
    )
    .ok()
    .unwrap();
    let run = JobRun::for_job(JobDescriptor::RemoteFetch(job), &store());
    assert_eq!(run.kind, JobKind::RemoteFetch);
    assert_eq!(run.invocations.len(), 2);
    assert_eq!(run.output_name, format!("{}.m4a", ID));

    let mut form = ConversionForm::with_job_id(ID.to_string());
    form.set_text(FormField::Reverse, b"true".to_vec());
    form.set_text(FormField::FadeOut, b"true".to_vec());
    form.stage_upload(Some("x.wav".to_string()));
    let run = JobRun::for_job(JobDescriptor::LocalConversion(form.finish(&store()).ok().unwrap()), &store());
    assert_eq!(run.kind, JobKind::LocalConversion);
    assert_eq!(run.phase, Phase::Executing);
    assert!(run.invocations[0].args.contains(&"areverse,afade=t=out:st=-3:d=3".to_string()));
}
