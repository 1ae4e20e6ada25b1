//! The request builder: named form fields become a validated job.
use vstd::prelude::*;
use vstd::utf8::{valid_utf8, decode_utf8};
use crate::ids::{random_job_id, staged_name};
use crate::job::{ArtifactStore, ConversionJob, MetadataJob, RemoteJob, RequestError, path_in, opt_text};
use crate::text::{owned, same_text};

verus! {

/// The form fields the service knows; any other name is ignored.
#[derive(PartialEq, Eq, Structural, Clone, Copy, Debug)]
pub enum FormField {
    File,
    Format,
    Quality,
    BitrateMode,
    SampleRate,
    Channels,
    FadeIn,
    FadeOut,
    Reverse,
    Artist,
    Title,
    Album,
    Genre,
    Other,
}

/// The field that a name denotes.
pub open spec fn field_of(name: Seq<char>) -> FormField {
    if name == "file"@ {
        FormField::File
    } else if name == "format"@ {
        FormField::Format
    } else if name == "quality"@ {
        FormField::Quality
    } else if name == "bitrate_mode"@ {
        FormField::BitrateMode
    } else if name == "sample_rate"@ {
        FormField::SampleRate
    } else if name == "channels"@ {
        FormField::Channels
    } else if name == "fade_in"@ {
        FormField::FadeIn
    } else if name == "fade_out"@ {
        FormField::FadeOut
    } else if name == "reverse"@ {
        FormField::Reverse
    } else if name == "artist"@ {
        FormField::Artist
    } else if name == "title"@ {
        FormField::Title
    } else if name == "album"@ {
        FormField::Album
    } else if name == "genre"@ {
        FormField::Genre
    } else {
        FormField::Other
    }
}

/// The field that a form part's name denotes.
pub fn classify_field(name: &str) -> (r: FormField)
    ensures
        r == field_of(name@),
{
    if same_text(name, "file") {
        FormField::File
    } else if same_text(name, "format") {
        FormField::Format
    } else if same_text(name, "quality") {
        FormField::Quality
    } else if same_text(name, "bitrate_mode") {
        FormField::BitrateMode
    } else if same_text(name, "sample_rate") {
        FormField::SampleRate
    } else if same_text(name, "channels") {
        FormField::Channels
    } else if same_text(name, "fade_in") {
        FormField::FadeIn
    } else if same_text(name, "fade_out") {
        FormField::FadeOut
    } else if same_text(name, "reverse") {
        FormField::Reverse
    } else if same_text(name, "artist") {
        FormField::Artist
    } else if same_text(name, "title") {
        FormField::Title
    } else if same_text(name, "album") {
        FormField::Album
    } else if same_text(name, "genre") {
        FormField::Genre
    } else {
        FormField::Other
    }
}

/// Relies on String::from_utf8: it succeeds exactly on valid UTF-8 and then
/// holds the characters that the bytes encode.
#[verifier::external_body]
fn decode_text(bytes: Vec<u8>) -> (r: Option<String>)
    ensures
        match r {
            Some(s) => valid_utf8(bytes@) && s@ == decode_utf8(bytes@),
            None => !valid_utf8(bytes@),
        },
{
    String::from_utf8(bytes).ok()
}

/// The text of a field's bytes, or `default` when they are not UTF-8.
pub open spec fn text_or(bytes: Seq<u8>, default: Seq<char>) -> Seq<char> {
    if valid_utf8(bytes) {
        decode_utf8(bytes)
    } else {
        default
    }
}

/// A flag field is set only by the exact text `true`.
pub open spec fn flag_of(bytes: Seq<u8>) -> bool {
    valid_utf8(bytes) && decode_utf8(bytes) == "true"@
}

/// Decodes a field's bytes, falling back to `default`.
fn decode_or(bytes: Vec<u8>, default: &str) -> (r: String)
    ensures
        r@ == text_or(bytes@, default@),
{
    match decode_text(bytes) {
        Some(s) => s,
        None => owned(default),
    }
}

/// Reads a flag field.
fn decode_flag(bytes: Vec<u8>) -> (r: bool)
    ensures
        r == flag_of(bytes@),
{
    match decode_text(bytes) {
        Some(s) => same_text(s.as_str(), "true"),
        None => false,
    }
}

/// What a conversion form holds so far.
pub struct ConversionFields {
    pub format: Seq<char>,
    pub quality: Option<Seq<char>>,
    pub bitrate_mode: Seq<char>,
    pub sample_rate: Seq<char>,
    pub channels: Seq<char>,
    pub fade_in: bool,
    pub fade_out: bool,
    pub reverse: bool,
    pub upload: Option<Seq<char>>,
}

/// The fields of a fresh conversion form: the documented defaults, no upload.
pub open spec fn default_conversion_fields() -> ConversionFields {
    ConversionFields {
        format: "mp3"@,
        quality: None,
        bitrate_mode: "constant"@,
        sample_rate: "44100"@,
        channels: "2"@,
        fade_in: false,
        fade_out: false,
        reverse: false,
        upload: None,
    }
}

/// The fields after one text field arrives; a field the form does not use changes nothing.
pub open spec fn with_text(v: ConversionFields, field: FormField, bytes: Seq<u8>) -> ConversionFields {
    match field {
        FormField::Format => ConversionFields { format: text_or(bytes, "mp3"@), ..v },
        FormField::Quality => ConversionFields { quality: Some(text_or(bytes, "192"@)), ..v },
        FormField::BitrateMode => ConversionFields { bitrate_mode: text_or(bytes, "constant"@), ..v },
        FormField::SampleRate => ConversionFields { sample_rate: text_or(bytes, "44100"@), ..v },
        FormField::Channels => ConversionFields { channels: text_or(bytes, "2"@), ..v },
        FormField::FadeIn => ConversionFields { fade_in: flag_of(bytes), ..v },
        FormField::FadeOut => ConversionFields { fade_out: flag_of(bytes), ..v },
        FormField::Reverse => ConversionFields { reverse: flag_of(bytes), ..v },
        _ => v,
    }
}

/// Two different fields may arrive in either order: the form ends up the same.
pub proof fn lemma_field_order_irrelevant(
    v: ConversionFields,
    f: FormField,
    a: Seq<u8>,
    g: FormField,
    b: Seq<u8>,
)
    requires
        f != g,
    ensures
        with_text(with_text(v, f, a), g, b) == with_text(with_text(v, g, b), f, a),
{
}

/// A conversion request being read field by field.
pub struct ConversionForm {
    pub job_id: String,
    pub format: String,
    pub quality: Option<String>,
    pub bitrate_mode: String,
    pub sample_rate: String,
    pub channels: String,
    pub fade_in: bool,
    pub fade_out: bool,
    pub reverse: bool,
    /// Name of the staged upload, once the file field has arrived.
    pub upload: Option<String>,
}

impl View for ConversionForm {
    type V = ConversionFields;

    open spec fn view(&self) -> ConversionFields {
        ConversionFields {
            format: self.format@,
            quality: opt_text(self.quality),
            bitrate_mode: self.bitrate_mode@,
            sample_rate: self.sample_rate@,
            channels: self.channels@,
            fade_in: self.fade_in,
            fade_out: self.fade_out,
            reverse: self.reverse,
            upload: opt_text(self.upload),
        }
    }
}

impl ConversionForm {
    /// A form for the given job, with every field at its default.
    pub fn with_job_id(job_id: String) -> (r: ConversionForm)
        ensures
            r@ == default_conversion_fields(),
            r.job_id@ == job_id@,
    {
        ConversionForm {
            job_id,
            format: owned("mp3"),
            quality: None,
            bitrate_mode: owned("constant"),
            sample_rate: owned("44100"),
            channels: owned("2"),
            fade_in: false,
            fade_out: false,
            reverse: false,
            upload: None,
        }
    }

    /// A form for a new job with a fresh identifier.
    pub fn new() -> (r: ConversionForm)
        ensures
            r@ == default_conversion_fields(),
            crate::ids::is_job_id(r.job_id@),
    {
        ConversionForm::with_job_id(random_job_id())
    }

    /// Takes in one text field; one the form does not use is ignored.
    pub fn set_text(&mut self, field: FormField, bytes: Vec<u8>)
        ensures
            final(self)@ == with_text(old(self)@, field, bytes@),
            final(self).job_id == old(self).job_id,
    {
        match field {
            FormField::Format => self.format = decode_or(bytes, "mp3"),
            FormField::Quality => self.quality = Some(decode_or(bytes, "192")),
            FormField::BitrateMode => self.bitrate_mode = decode_or(bytes, "constant"),
            FormField::SampleRate => self.sample_rate = decode_or(bytes, "44100"),
            FormField::Channels => self.channels = decode_or(bytes, "2"),
            FormField::FadeIn => self.fade_in = decode_flag(bytes),
            FormField::FadeOut => self.fade_out = decode_flag(bytes),
            FormField::Reverse => self.reverse = decode_flag(bytes),
            _ => {},
        }
    }

    /// Records the upload and returns the name to stage it under:
    /// `{job_id}_{original}`, with `upload` when the client sent no file name.
    pub fn stage_upload(&mut self, original: Option<String>) -> (r: String)
        ensures
            r@ == staged_name(
                old(self).job_id@,
                match original {
                    Some(o) => o@,
                    None => "upload"@,
                },
            ),
            final(self)@ == (ConversionFields { upload: Some(r@), ..old(self)@ }),
            final(self).job_id == old(self).job_id,
    {
        let name = match original {
            Some(o) => o,
            None => owned("upload"),
        };
        let staged = crate::ids::staged_filename(self.job_id.as_str(), name.as_str());
        self.upload = Some(staged.clone());
        staged
    }

    /// The job this form describes; `MissingPayload` when no file arrived.
    pub fn finish(self, store: &ArtifactStore) -> (r: Result<ConversionJob, RequestError>)
        ensures
            self@.upload is Some <==> r is Ok,
            self@.upload is None <==> r == Err::<ConversionJob, RequestError>(
                RequestError::MissingPayload,
            ),
            r matches Ok(job) ==> {
                &&& job.job_id == self.job_id
                &&& job.input_path@ == path_in(store.staging_dir@, self@.upload.unwrap())
                &&& job.format@ == self@.format
                &&& opt_text(job.quality) == self@.quality
                &&& job.bitrate_mode@ == self@.bitrate_mode
                &&& job.sample_rate@ == self@.sample_rate
                &&& job.channels@ == self@.channels
                &&& job.fade_in == self@.fade_in
                &&& job.fade_out == self@.fade_out
                &&& job.reverse == self@.reverse
            },
    {
        match &self.upload {
            None => Err(RequestError::MissingPayload),
            Some(name) => {
                let input_path = store.staging_path(name.as_str());
                Ok(
                    ConversionJob {
                        job_id: self.job_id,
                        input_path,
                        format: self.format,
                        quality: self.quality,
                        bitrate_mode: self.bitrate_mode,
                        sample_rate: self.sample_rate,
                        channels: self.channels,
                        fade_in: self.fade_in,
                        fade_out: self.fade_out,
                        reverse: self.reverse,
                    },
                )
            },
        }
    }
}

/// What a metadata form holds so far.
pub struct MetadataFields {
    pub artist: Option<Seq<char>>,
    pub title: Option<Seq<char>>,
    pub album: Option<Seq<char>>,
    pub genre: Option<Seq<char>>,
    pub upload: Option<Seq<char>>,
}

/// The fields after one tag field arrives; undecodable text becomes an empty tag.
pub open spec fn with_tag(v: MetadataFields, field: FormField, bytes: Seq<u8>) -> MetadataFields {
    match field {
        FormField::Artist => MetadataFields { artist: Some(text_or(bytes, ""@)), ..v },
        FormField::Title => MetadataFields { title: Some(text_or(bytes, ""@)), ..v },
        FormField::Album => MetadataFields { album: Some(text_or(bytes, ""@)), ..v },
        FormField::Genre => MetadataFields { genre: Some(text_or(bytes, ""@)), ..v },
        _ => v,
    }
}

/// A metadata rewrite request being read field by field.
pub struct MetadataForm {
    pub job_id: String,
    pub artist: Option<String>,
    pub title: Option<String>,
    pub album: Option<String>,
    pub genre: Option<String>,
    /// Name of the staged upload, once the file field has arrived.
    pub upload: Option<String>,
}

impl View for MetadataForm {
    type V = MetadataFields;

    open spec fn view(&self) -> MetadataFields {
        MetadataFields {
            artist: opt_text(self.artist),
            title: opt_text(self.title),
            album: opt_text(self.album),
            genre: opt_text(self.genre),
            upload: opt_text(self.upload),
        }
    }
}

impl MetadataForm {
    /// A form for the given job, with no tags and no upload.
    pub fn with_job_id(job_id: String) -> (r: MetadataForm)
        ensures
            r@ == (MetadataFields { artist: None, title: None, album: None, genre: None, upload: None }),
            r.job_id@ == job_id@,
    {
        MetadataForm { job_id, artist: None, title: None, album: None, genre: None, upload: None }
    }

    /// A form for a new job with a fresh identifier.
    pub fn new() -> (r: MetadataForm)
        ensures
            r@ == (MetadataFields { artist: None, title: None, album: None, genre: None, upload: None }),
            crate::ids::is_job_id(r.job_id@),
    {
        MetadataForm::with_job_id(random_job_id())
    }

    /// Takes in one tag field; one the form does not use is ignored.
    pub fn set_text(&mut self, field: FormField, bytes: Vec<u8>)
        ensures
            final(self)@ == with_tag(old(self)@, field, bytes@),
            final(self).job_id == old(self).job_id,
    {
        match field {
            FormField::Artist => self.artist = Some(decode_or(bytes, "")),
            FormField::Title => self.title = Some(decode_or(bytes, "")),
            FormField::Album => self.album = Some(decode_or(bytes, "")),
            FormField::Genre => self.genre = Some(decode_or(bytes, "")),
            _ => {},
        }
    }

    /// Records the upload and returns the name to stage it under:
    /// `{job_id}_{original}`, with `upload` when the client sent no file name.
    pub fn stage_upload(&mut self, original: Option<String>) -> (r: String)
        ensures
            r@ == staged_name(
                old(self).job_id@,
                match original {
                    Some(o) => o@,
                    None => "upload"@,
                },
            ),
            final(self)@ == (MetadataFields { upload: Some(r@), ..old(self)@ }),
            final(self).job_id == old(self).job_id,
    {
        let name = match original {
            Some(o) => o,
            None => owned("upload"),
        };
        let staged = crate::ids::staged_filename(self.job_id.as_str(), name.as_str());
        self.upload = Some(staged.clone());
        staged
    }

    /// The job this form describes; `MissingPayload` when no file arrived.
    pub fn finish(self, store: &ArtifactStore) -> (r: Result<MetadataJob, RequestError>)
        ensures
            self@.upload is Some <==> r is Ok,
            self@.upload is None <==> r == Err::<MetadataJob, RequestError>(
                RequestError::MissingPayload,
            ),
            r matches Ok(job) ==> {
                &&& job.job_id == self.job_id
                &&& job.input_path@ == path_in(store.staging_dir@, self@.upload.unwrap())
                &&& opt_text(job.artist) == self@.artist
                &&& opt_text(job.title) == self@.title
                &&& opt_text(job.album) == self@.album
                &&& opt_text(job.genre) == self@.genre
            },
    {
        match &self.upload {
            None => Err(RequestError::MissingPayload),
            Some(name) => {
                let input_path = store.staging_path(name.as_str());
                Ok(
                    MetadataJob {
                        job_id: self.job_id,
                        input_path,
                        artist: self.artist,
                        title: self.title,
                        album: self.album,
                        genre: self.genre,
                    },
                )
            },
        }
    }
}

impl RemoteJob {
    /// A remote job from a structured request; `url` and `format` are
    /// required, and `MalformedRequest` comes exactly when one is missing.
    pub fn from_request(
        job_id: String,
        url: Option<String>,
        format: Option<String>,
        quality: Option<String>,
    ) -> (r: Result<RemoteJob, RequestError>)
        ensures
            (url is Some && format is Some) <==> r is Ok,
            (url is None || format is None) <==> r == Err::<RemoteJob, RequestError>(
                RequestError::MalformedRequest,
            ),
            r matches Ok(job) ==> {
                &&& job.job_id@ == job_id@
                &&& job.url@ == url.unwrap()@
                &&& job.format@ == format.unwrap()@
                &&& opt_text(job.quality) == opt_text(quality)
            },
    {
        match (url, format) {
            (Some(url), Some(format)) => Ok(RemoteJob { job_id, url, format, quality }),
            _ => Err(RequestError::MalformedRequest),
        }
    }

    /// A remote job with a fresh identifier; see `from_request`.
    pub fn new(url: Option<String>, format: Option<String>, quality: Option<String>) -> (r: Result<
        RemoteJob,
        RequestError,
    >)
        ensures
            (url is Some && format is Some) <==> r is Ok,
            (url is None || format is None) <==> r == Err::<RemoteJob, RequestError>(
                RequestError::MalformedRequest,
            ),
            r matches Ok(job) ==> {
                &&& crate::ids::is_job_id(job.job_id@)
                &&& job.url@ == url.unwrap()@
                &&& job.format@ == format.unwrap()@
                &&& opt_text(job.quality) == opt_text(quality)
            },
    {
        RemoteJob::from_request(random_job_id(), url, format, quality)
    }
}

} // verus!
