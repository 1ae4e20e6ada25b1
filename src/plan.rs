//! The planner: a job becomes the exact tool invocations that carry it out.
use vstd::prelude::*;
use vstd::string::StringExecFns;
use crate::job::{ConversionJob, MetadataJob, RemoteJob, opt_text};
use crate::quality::{quality_args, quality_arguments, kilobits, kilobits_text};
use crate::text::{texts, push_text, owned, joined};

verus! {

/// One run of an external tool: the program and its arguments, in order.
pub struct Invocation {
    pub program: String,
    pub args: Vec<String>,
}

impl Invocation {
    /// The arguments as character sequences.
    pub open spec fn arg_texts(&self) -> Seq<Seq<char>> {
        texts(self.args@)
    }
}

/// The filter expressions for the chosen effects, always in the order
/// reverse, fade-in, fade-out.
pub open spec fn filter_chain(reverse: bool, fade_in: bool, fade_out: bool) -> Seq<Seq<char>> {
    (if reverse { seq!["areverse"@] } else { seq![] })
    + (if fade_in { seq!["afade=t=in:ss=0:d=3"@] } else { seq![] })
    + (if fade_out { seq!["afade=t=out:st=-3:d=3"@] } else { seq![] })
}

/// The parts joined with commas.
pub open spec fn comma_joined(parts: Seq<Seq<char>>) -> Seq<char>
    decreases parts.len(),
{
    if parts.len() == 0 {
        seq![]
    } else if parts.len() == 1 {
        parts[0]
    } else {
        comma_joined(parts.drop_last()) + seq![','] + parts.last()
    }
}

/// The filter argument: absent when no effect is chosen, else the chain joined with commas.
pub open spec fn filter_text(reverse: bool, fade_in: bool, fade_out: bool) -> Option<Seq<char>> {
    if !reverse && !fade_in && !fade_out {
        None
    } else {
        Some(comma_joined(filter_chain(reverse, fade_in, fade_out)))
    }
}

/// Appends one filter expression to a comma-joined chain.
fn add_filter(chain: &mut String, parts: Ghost<Seq<Seq<char>>>, first: bool, f: &str) -> (r: Ghost<
    Seq<Seq<char>>,
>)
    requires
        old(chain)@ == comma_joined(parts@),
        first == (parts@.len() == 0),
    ensures
        r@ == parts@.push(f@),
        final(chain)@ == comma_joined(r@),
{
    if !first {
        chain.append(",");
    }
    chain.append(f);
    proof {
        reveal_strlit(",");
        let q = parts@.push(f@);
        assert(q.drop_last() =~= parts@);
        assert(chain@ =~= comma_joined(q));
    }
    Ghost(parts@.push(f@))
}

/// The filter argument for the chosen effects; `None` when none is chosen.
pub fn filter_argument(reverse: bool, fade_in: bool, fade_out: bool) -> (r: Option<String>)
    ensures
        opt_text(r) == filter_text(reverse, fade_in, fade_out),
{
    if !reverse && !fade_in && !fade_out {
        return None;
    }
    let mut chain = String::new();
    let mut parts: Ghost<Seq<Seq<char>>> = Ghost(Seq::empty());
    if reverse {
        parts = add_filter(&mut chain, parts, true, "areverse");
    }
    if fade_in {
        parts = add_filter(&mut chain, parts, !reverse, "afade=t=in:ss=0:d=3");
    }
    if fade_out {
        parts = add_filter(&mut chain, parts, !reverse && !fade_in, "afade=t=out:st=-3:d=3");
    }
    proof {
        assert(parts@ =~= filter_chain(reverse, fade_in, fade_out));
    }
    Some(chain)
}

/// The arguments of the transcoding run for a local conversion.
pub open spec fn conversion_args(job: ConversionJob, output: Seq<char>) -> Seq<Seq<char>> {
    seq!["-i"@, job.input_path@, "-y"@] + match filter_text(job.reverse, job.fade_in, job.fade_out) {
        Some(f) => seq!["-af"@, f],
        None => seq![],
    } + seq!["-ar"@, job.sample_rate@, "-ac"@, job.channels@] + quality_args(
        job.format@,
        job.bitrate_mode@,
        opt_text(job.quality),
    ) + seq![output]
}

/// Plans the transcoding of a staged upload into `output`.
pub fn plan_conversion(job: &ConversionJob, output: &str) -> (r: Invocation)
    ensures
        r.program@ == "ffmpeg"@,
        r.arg_texts() == conversion_args(*job, output@),
{
    let mut args: Vec<String> = Vec::new();
    push_text(&mut args, owned("-i"));
    push_text(&mut args, job.input_path.clone());
    push_text(&mut args, owned("-y"));
    let filter = filter_argument(job.reverse, job.fade_in, job.fade_out);
    match filter {
        Some(f) => {
            push_text(&mut args, owned("-af"));
            push_text(&mut args, f);
        },
        None => {},
    }
    let ghost head = texts(args@);
    push_text(&mut args, owned("-ar"));
    push_text(&mut args, job.sample_rate.clone());
    push_text(&mut args, owned("-ac"));
    push_text(&mut args, job.channels.clone());
    let ghost mid = texts(args@);
    let quality: Option<&str> = match &job.quality {
        Some(q) => Some(q.as_str()),
        None => None,
    };
    let qargs = quality_arguments(job.format.as_str(), job.bitrate_mode.as_str(), quality);
    let mut i: usize = 0;
    while i < qargs.len()
        invariant
            i <= qargs@.len(),
            texts(args@) == mid + texts(qargs@).subrange(0, i as int),
        decreases qargs@.len() - i,
    {
        let ghost before = texts(args@);
        push_text(&mut args, qargs[i].clone());
        proof {
            assert(texts(qargs@).subrange(0, i + 1) =~= texts(qargs@).subrange(0, i as int).push(
                qargs@[i as int]@,
            ));
        }
        i = i + 1;
    }
    push_text(&mut args, owned(output));
    proof {
        assert(texts(qargs@).subrange(0, qargs@.len() as int) =~= texts(qargs@));
        assert(opt_text(job.quality) == match quality {
            Some(q) => Some(q@),
            None => None,
        });
        assert(texts(args@) =~= conversion_args(*job, output@));
    }
    Invocation { program: owned("ffmpeg"), args }
}

/// The stream selector for fetching: an mp4 video and m4a audio pair, else
/// the best mp4, else the best of any kind.
pub open spec fn fetch_selector() -> Seq<char> {
    "bestvideo[ext=mp4]+bestaudio[ext=m4a]/best[ext=mp4]/best"@
}

/// The arguments of the fetch run: selector, staged container path, then the URL.
pub open spec fn fetch_args(job: RemoteJob, staged: Seq<char>) -> Seq<Seq<char>> {
    seq!["-f"@, fetch_selector(), "-o"@, staged, job.url@]
}

/// The arguments of the extraction run: the video stream is dropped, and the
/// quality is an explicit bitrate when given, else the best-quality marker.
pub open spec fn extract_args(job: RemoteJob, staged: Seq<char>, output: Seq<char>) -> Seq<Seq<char>> {
    seq!["-i"@, staged, "-y"@, "-vn"@] + match opt_text(job.quality) {
        Some(q) => seq!["-b:a"@, kilobits(q)],
        None => seq!["-q:a"@, "0"@],
    } + seq![output]
}

/// Plans a remote job: first fetch into `staged`, then extract the audio into `output`.
pub fn plan_remote(job: &RemoteJob, staged: &str, output: &str) -> (r: Vec<Invocation>)
    ensures
        r@.len() == 2,
        r@[0].program@ == "yt-dlp"@,
        r@[0].arg_texts() == fetch_args(*job, staged@),
        r@[1].program@ == "ffmpeg"@,
        r@[1].arg_texts() == extract_args(*job, staged@, output@),
{
    let mut fetch: Vec<String> = Vec::new();
    push_text(&mut fetch, owned("-f"));
    push_text(&mut fetch, owned("bestvideo[ext=mp4]+bestaudio[ext=m4a]/best[ext=mp4]/best"));
    push_text(&mut fetch, owned("-o"));
    push_text(&mut fetch, owned(staged));
    push_text(&mut fetch, job.url.clone());
    let mut extract: Vec<String> = Vec::new();
    push_text(&mut extract, owned("-i"));
    push_text(&mut extract, owned(staged));
    push_text(&mut extract, owned("-y"));
    push_text(&mut extract, owned("-vn"));
    match &job.quality {
        Some(q) => {
            push_text(&mut extract, owned("-b:a"));
            push_text(&mut extract, kilobits_text(q.as_str()));
        },
        None => {
            push_text(&mut extract, owned("-q:a"));
            push_text(&mut extract, owned("0"));
        },
    }
    push_text(&mut extract, owned(output));
    proof {
        assert(texts(fetch@) =~= fetch_args(*job, staged@));
        assert(texts(extract@) =~= extract_args(*job, staged@, output@));
    }
    let mut r: Vec<Invocation> = Vec::new();
    r.push(Invocation { program: owned("yt-dlp"), args: fetch });
    r.push(Invocation { program: owned("ffmpeg"), args: extract });
    r
}

/// The tag argument pair for one override; none when the field is absent.
pub open spec fn tag_args(key: Seq<char>, value: Option<Seq<char>>) -> Seq<Seq<char>> {
    match value {
        Some(v) => seq!["-metadata"@, key + seq!['='] + v],
        None => seq![],
    }
}

/// The arguments of a metadata rewrite: stream copy, then one tag pair per
/// override present, in the order artist, title, album, genre.
pub open spec fn metadata_args(job: MetadataJob, output: Seq<char>) -> Seq<Seq<char>> {
    seq!["-i"@, job.input_path@, "-y"@, "-codec"@, "copy"@]
    + tag_args("artist"@, opt_text(job.artist))
    + tag_args("title"@, opt_text(job.title))
    + tag_args("album"@, opt_text(job.album))
    + tag_args("genre"@, opt_text(job.genre))
    + seq![output]
}

/// Appends the tag pair for one override, if present.
fn push_tag(args: &mut Vec<String>, key: &str, value: &Option<String>)
    ensures
        texts(final(args)@) == texts(old(args)@) + tag_args(key@, opt_text(*value)),
{
    match value {
        Some(v) => {
            push_text(args, owned("-metadata"));
            let mut kv = joined(key, "=");
            kv.append(v.as_str());
            proof {
                reveal_strlit("=");
                assert("="@ =~= seq!['=']);
                assert(kv@ == key@ + seq!['='] + v@);
            }
            push_text(args, kv);
        },
        None => {},
    }
    proof {
        assert(texts(args@) =~= texts(old(args)@) + tag_args(key@, opt_text(*value)));
    }
}

/// Plans a metadata rewrite of the staged upload into `output`.
pub fn plan_metadata(job: &MetadataJob, output: &str) -> (r: Invocation)
    ensures
        r.program@ == "ffmpeg"@,
        r.arg_texts() == metadata_args(*job, output@),
{
    let mut args: Vec<String> = Vec::new();
    push_text(&mut args, owned("-i"));
    push_text(&mut args, job.input_path.clone());
    push_text(&mut args, owned("-y"));
    push_text(&mut args, owned("-codec"));
    push_text(&mut args, owned("copy"));
    push_tag(&mut args, "artist", &job.artist);
    push_tag(&mut args, "title", &job.title);
    push_tag(&mut args, "album", &job.album);
    push_tag(&mut args, "genre", &job.genre);
    push_text(&mut args, owned(output));
    proof {
        assert(texts(args@) =~= metadata_args(*job, output@));
    }
    Invocation { program: owned("ffmpeg"), args }
}

/// Planning has no hidden state: equal jobs and paths give equal argument
/// lists, for each kind of job.
pub proof fn lemma_planning_is_pure(
    a: ConversionJob,
    b: ConversionJob,
    r: RemoteJob,
    s: RemoteJob,
    m: MetadataJob,
    n: MetadataJob,
    staged: Seq<char>,
    out: Seq<char>,
)
    requires
        a == b,
        r == s,
        m == n,
    ensures
        conversion_args(a, out) == conversion_args(b, out),
        fetch_args(r, staged) == fetch_args(s, staged),
        extract_args(r, staged, out) == extract_args(s, staged, out),
        metadata_args(m, out) == metadata_args(n, out),
{
}

} // verus!
