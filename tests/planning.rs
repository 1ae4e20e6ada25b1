use anytrack::ids::{output_filename, path_extension, staged_filename};
use anytrack::job::{ArtifactStore, RemoteJob, RequestError};
use anytrack::pipeline::JobRun;
use anytrack::plan::filter_argument;
use anytrack::quality::{quality_arguments, vbr_index_for_text, vbr_quality_index};
use anytrack::request::{classify_field, ConversionForm, FormField, MetadataForm};

const ID: &str = "0b3f6a2e-9c1d-4e7a-8f00-123456789abc";

fn store() -> ArtifactStore {
    ArtifactStore::new("uploads".to_string(), "outputs".to_string())
}

fn strs(v: &[String]) -> Vec<&str> {
    v.iter().map(|s| s.as_str()).collect()
}

#[test]
fn vbr_index_extremes_and_default() {
    assert_eq!(vbr_quality_index(Some(320)), 0);
    assert_eq!(vbr_quality_index(Some(1000)), 0);
    assert_eq!(vbr_quality_index(Some(63)), 9);
    assert_eq!(vbr_quality_index(Some(-40)), 9);
    assert_eq!(vbr_quality_index(None), 3);
}

#[test]
fn vbr_index_breakpoints_are_monotonic() {
    let table = [
        (320, 0), (319, 1), (256, 1), (224, 2), (192, 3), (191, 4), (160, 4), (128, 5),
        (96, 6), (80, 7), (64, 8), (63, 9),
    ];
    let mut last = 0u8;
    for (q, idx) in table {
        let got = vbr_quality_index(Some(q));
        assert_eq!(got, idx, "bitrate {}", q);
        assert!(got >= last);
        last = got;
    }
}

#[test]
fn vbr_index_from_text() {
    assert_eq!(vbr_index_for_text("100"), 6);
    assert_eq!(vbr_index_for_text("+256"), 1);
    assert_eq!(vbr_index_for_text("high"), 3);
    assert_eq!(vbr_index_for_text(""), 3);
    assert_eq!(vbr_index_for_text("99999999999"), 3);
}

#[test]
fn quality_arguments_by_format_and_mode() {
    assert_eq!(quality_arguments("mp3", "constant", Some("192")), vec!["-b:a", "192k"]);
    assert_eq!(quality_arguments("mp3", "variable", Some("128")), vec!["-q:a", "5"]);
    assert_eq!(quality_arguments("mp3", "variable", Some("junk")), vec!["-q:a", "3"]);
    assert_eq!(quality_arguments("opus", "variable", Some("96")), vec!["-b:a", "96k"]);
    assert_eq!(quality_arguments("m4a", "constant", Some("256")), vec!["-b:a", "256k"]);
    assert!(quality_arguments("wav", "constant", Some("192")).is_empty());
    assert!(quality_arguments("mp3", "constant", None).is_empty());
}

#[test]
fn filter_chain_order_is_fixed() {
    assert_eq!(filter_argument(false, false, false), None);
    assert_eq!(filter_argument(true, false, false).as_deref(), Some("areverse"));
    assert_eq!(
        filter_argument(false, true, true).as_deref(),
        Some("afade=t=in:ss=0:d=3,afade=t=out:st=-3:d=3")
    );
    assert_eq!(
        filter_argument(true, true, true).as_deref(),
        Some("areverse,afade=t=in:ss=0:d=3,afade=t=out:st=-3:d=3")
    );
}

#[test]
fn file_names_embed_the_job_id() {
    assert_eq!(output_filename(ID, "mp3"), format!("{}.mp3", ID));
    assert_eq!(staged_filename(ID, "my song.wav"), format!("{}_my song.wav", ID));
}

#[test]
fn fresh_job_ids_are_uuids_and_differ() {
    let a = ConversionForm::new();
    let b = ConversionForm::new();
    assert_eq!(a.job_id.len(), 36);
    assert_eq!(a.job_id.as_bytes()[8], b'-');
    assert_ne!(a.job_id, b.job_id);
    assert_ne!(output_filename(&a.job_id, "mp3"), output_filename(&b.job_id, "mp3"));
}

#[test]
fn field_names_are_classified() {
    assert_eq!(classify_field("file"), FormField::File);
    assert_eq!(classify_field("fade_out"), FormField::FadeOut);
    assert_eq!(classify_field("genre"), FormField::Genre);
    assert_eq!(classify_field("Format"), FormField::Other);
    assert_eq!(classify_field(""), FormField::Other);
}

#[test]
fn text_fields_fall_back_on_bad_utf8() {
    let mut form = ConversionForm::with_job_id(ID.to_string());
    form.set_text(FormField::Format, b"flac".to_vec());
    assert_eq!(form.format, "flac");
    form.set_text(FormField::Format, vec![0xff, 0xfe]);
    assert_eq!(form.format, "mp3");
    form.set_text(FormField::Quality, vec![0xc3]);
    assert_eq!(form.quality.as_deref(), Some("192"));
    form.set_text(FormField::FadeIn, b"true".to_vec());
    assert!(form.fade_in);
    form.set_text(FormField::FadeIn, b"TRUE".to_vec());
    assert!(!form.fade_in);
    form.set_text(FormField::Artist, b"ignored".to_vec());
    assert_eq!(form.sample_rate, "44100");
    assert_eq!(form.channels, "2");
    assert_eq!(form.bitrate_mode, "constant");
}

#[test]
fn conversion_without_file_is_missing_payload() {
    let form = ConversionForm::with_job_id(ID.to_string());
    assert!(matches!(form.finish(&store()), Err(RequestError::MissingPayload)));
    let form = MetadataForm::with_job_id(ID.to_string());
    assert!(matches!(form.finish(&store()), Err(RequestError::MissingPayload)));
}

#[test]
fn remote_request_needs_url_and_format() {
    let r = RemoteJob::from_request(ID.to_string(), None, Some("mp3".to_string()), None);
    assert!(matches!(r, Err(RequestError::MalformedRequest)));
    let r = RemoteJob::from_request(ID.to_string(), Some("https://example/video".to_string()), None, None);
    assert!(matches!(r, Err(RequestError::MalformedRequest)));
}

#[test]
fn scenario_constant_bitrate_conversion() {
    let mut form = ConversionForm::with_job_id(ID.to_string());
    form.set_text(FormField::Format, b"mp3".to_vec());
    form.set_text(FormField::Quality, b"192".to_vec());
    form.set_text(FormField::BitrateMode, b"constant".to_vec());
    let staged = form.stage_upload(Some("song.wav".to_string()));
    assert_eq!(staged, format!("{}_song.wav", ID));
    let job = form.finish(&store()).ok().unwrap();
    let run = JobRun::for_conversion(job, &store());
    assert_eq!(run.invocations.len(), 1);
    assert_eq!(run.invocations[0].program, "ffmpeg");
    let input = format!("uploads/{}_song.wav", ID);
    let output = format!("outputs/{}.mp3", ID);
    assert_eq!(
        strs(&run.invocations[0].args),
        vec!["-i", input.as_str(), "-y", "-ar", "44100", "-ac", "2", "-b:a", "192k", output.as_str()]
    );
    assert_eq!(run.output_name, format!("{}.mp3", ID));
}

#[test]
fn scenario_reverse_and_fade_in() {
    let mut form = ConversionForm::with_job_id(ID.to_string());
    form.set_text(FormField::FadeIn, b"true".to_vec());
    form.set_text(FormField::Reverse, b"true".to_vec());
    form.stage_upload(None);
    let run = JobRun::for_conversion(form.finish(&store()).ok().unwrap(), &store());
    let args = strs(&run.invocations[0].args);
    let filters: Vec<usize> = (0..args.len()).filter(|&i| args[i] == "-af").collect();
    assert_eq!(filters.len(), 1);
    assert_eq!(args[filters[0] + 1], "areverse,afade=t=in:ss=0:d=3");
    assert_eq!(args[1], format!("uploads/{}_upload", ID));
}

#[test]
fn planning_twice_gives_the_same_plan() {
    let build = || {
        let mut form = ConversionForm::with_job_id(ID.to_string());
        form.set_text(FormField::FadeOut, b"true".to_vec());
        form.set_text(FormField::Quality, b"160".to_vec());
        form.set_text(FormField::BitrateMode, b"variable".to_vec());
        form.stage_upload(Some("a.flac".to_string()));
        form.finish(&store()).ok().unwrap()
    };
    let a = JobRun::for_conversion(build(), &store());
    let b = JobRun::for_conversion(build(), &store());
    assert_eq!(a.invocations[0].args, b.invocations[0].args);
    assert!(a.invocations[0].args.contains(&"4".to_string()));
}

#[test]
fn scenario_remote_fetch_then_extract() {
    let job = RemoteJob::from_request(
        ID.to_string(),
        Some("https://example/video".to_string()),
        Some("mp3".to_string()),
        None,
    )
    .ok()
    .unwrap();
    let run = JobRun::for_remote(job, &store());
    assert_eq!(run.invocations.len(), 2);
    let staged = format!("uploads/{}.mp4", ID);
    let output = format!("outputs/{}.mp3", ID);
    assert_eq!(run.invocations[0].program, "yt-dlp");
    assert_eq!(
        strs(&run.invocations[0].args),
        vec![
            "-f",
            "bestvideo[ext=mp4]+bestaudio[ext=m4a]/best[ext=mp4]/best",
            "-o",
            staged.as_str(),
            "https://example/video"
        ]
    );
    assert_eq!(run.invocations[1].program, "ffmpeg");
    assert_eq!(
        strs(&run.invocations[1].args),
        vec!["-i", staged.as_str(), "-y", "-vn", "-q:a", "0", output.as_str()]
    );
    assert_eq!(run.staged_path, staged);
}

#[test]
fn remote_quality_is_an_explicit_bitrate() {
    let job = RemoteJob::from_request(
        ID.to_string(),
        Some("https://example/video".to_string()),
        Some("ogg".to_string()),
        Some("128".to_string()),
    )
    .ok()
    .unwrap();
    let run = JobRun::for_remote(job, &store());
    let args = strs(&run.invocations[1].args);
    assert_eq!(&args[4..6], &["-b:a", "128k"]);
    assert_eq!(run.output_name, format!("{}.ogg", ID));
}

#[test]
fn scenario_metadata_artist_only() {
    let mut form = MetadataForm::with_job_id(ID.to_string());
    form.set_text(FormField::Artist, b"Nina".to_vec());
    form.set_text(FormField::Format, b"wav".to_vec());
    form.stage_upload(Some("track.flac".to_string()));
    let run = JobRun::for_metadata(form.finish(&store()).ok().unwrap(), &store());
    let input = format!("uploads/{}_track.flac", ID);
    let output = format!("outputs/{}.flac", ID);
    assert_eq!(
        strs(&run.invocations[0].args),
        vec!["-i", input.as_str(), "-y", "-codec", "copy", "-metadata", "artist=Nina", output.as_str()]
    );
}

#[test]
fn metadata_output_defaults_to_mp3() {
    let mut form = MetadataForm::with_job_id(ID.to_string());
    form.set_text(FormField::Title, vec![0xff]);
    form.stage_upload(Some("noext".to_string()));
    let run = JobRun::for_metadata(form.finish(&store()).ok().unwrap(), &store());
    assert_eq!(run.output_name, format!("{}.mp3", ID));
    let args = strs(&run.invocations[0].args);
    assert_eq!(&args[5..7], &["-metadata", "title="]);
}

#[test]
fn extensions_follow_the_last_component() {
    assert_eq!(path_extension("a/b.tar.gz").as_deref(), Some("gz"));
    assert_eq!(path_extension("x.d/noext"), None);
    assert_eq!(path_extension("dir/.hidden"), None);
    assert_eq!(path_extension("dir/.hidden.ogg").as_deref(), Some("ogg"));
    assert_eq!(path_extension("dir/.."), None);
    assert_eq!(path_extension("a/b."), Some(String::new()));
}
