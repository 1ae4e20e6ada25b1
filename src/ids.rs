//! Job identifiers and the file names derived from them.
use vstd::prelude::*;
use crate::text::joined;
use vstd::string::StringExecFns;

verus! {

/// A lowercase hexadecimal digit.
pub open spec fn is_lower_hex(c: char) -> bool {
    ('0' <= c && c <= '9') || ('a' <= c && c <= 'f')
}

/// A job identifier: a UUID in its hyphenated lowercase form, 36 characters
/// with hyphens at positions 8, 13, 18 and 23.
pub open spec fn is_job_id(s: Seq<char>) -> bool {
    &&& s.len() == 36
    &&& forall|i: int|
        0 <= i < 36 ==> if i == 8 || i == 13 || i == 18 || i == 23 {
            s[i] == '-'
        } else {
            is_lower_hex(#[trigger] s[i])
        }
}

/// Relies on uuid::Uuid::new_v4 and the Display impl of Uuid: a random
/// version-4 UUID, written as 36 lowercase hexadecimal digits and hyphens.
#[verifier::external_body]
pub(crate) fn random_job_id() -> (r: String)
    ensures
        is_job_id(r@),
{
    uuid::Uuid::new_v4().to_string()
}

/// Name of a staged upload: the job identifier, `_`, then the client's file name.
pub open spec fn staged_name(job_id: Seq<char>, original: Seq<char>) -> Seq<char> {
    job_id + seq!['_'] + original
}

/// Name of an artifact: the job identifier, `.`, then the format.
pub open spec fn output_name(job_id: Seq<char>, format: Seq<char>) -> Seq<char> {
    job_id + seq!['.'] + format
}

/// The staged name of an upload, `{job_id}_{original}`; the client's name is kept verbatim.
pub fn staged_filename(job_id: &str, original: &str) -> (r: String)
    ensures
        r@ == staged_name(job_id@, original@),
{
    let mut r = joined(job_id, "_");
    r.append(original);
    proof {
        reveal_strlit("_");
    }
    r
}

/// The name of an output artifact, `{job_id}.{format}`.
pub fn output_filename(job_id: &str, format: &str) -> (r: String)
    ensures
        r@ == output_name(job_id@, format@),
{
    let mut r = joined(job_id, ".");
    r.append(format);
    proof {
        reveal_strlit(".");
    }
    r
}

/// Two jobs with different identifiers never share a file name: no staged
/// or output name of one is a staged or output name of the other, whatever
/// file names and formats they carry.
pub proof fn lemma_distinct_jobs_distinct_names(
    a: Seq<char>,
    b: Seq<char>,
    name_a: Seq<char>,
    name_b: Seq<char>,
)
    requires
        is_job_id(a),
        is_job_id(b),
        a != b,
    ensures
        staged_name(a, name_a) != staged_name(b, name_b),
        output_name(a, name_a) != output_name(b, name_b),
        staged_name(a, name_a) != output_name(b, name_b),
        output_name(a, name_a) != staged_name(b, name_b),
{
    assert(!(a =~= b));
    let i = choose|i: int| 0 <= i < a.len() && a[i] != b[i];
    assert(staged_name(a, name_a)[i] == a[i]);
    assert(staged_name(b, name_b)[i] == b[i]);
    assert(output_name(a, name_a)[i] == a[i]);
    assert(output_name(b, name_b)[i] == b[i]);
}

/// The index of the last occurrence of `c` in `s`, or -1.
pub open spec fn last_index_of(s: Seq<char>, c: char) -> int
    decreases s.len(),
{
    if s.len() == 0 {
        -1
    } else if s.last() == c {
        s.len() - 1
    } else {
        last_index_of(s.drop_last(), c)
    }
}

proof fn lemma_last_index_bounds(s: Seq<char>, c: char)
    ensures
        -1 <= last_index_of(s, c) < s.len(),
    decreases s.len(),
{
    if s.len() > 0 {
        lemma_last_index_bounds(s.drop_last(), c);
    }
}

/// The last component of a path: what follows its last `/`.
pub open spec fn file_name_of(path: Seq<char>) -> Seq<char> {
    path.subrange(last_index_of(path, '/') + 1, path.len() as int)
}

/// The extension of a file name: what follows its last `.`, where that dot
/// is not the name's first character, and the name is not `..`.
pub open spec fn extension_of(name: Seq<char>) -> Option<Seq<char>> {
    let d = last_index_of(name, '.');
    if d <= 0 || name == ".."@ {
        None
    } else {
        Some(name.subrange(d + 1, name.len() as int))
    }
}

/// The index of the last occurrence of `c` in `s`.
pub fn last_index(s: &str, c: char) -> (r: Option<usize>)
    ensures
        match r {
            Some(i) => i as int == last_index_of(s@, c) && i < s@.len(),
            None => last_index_of(s@, c) == -1,
        },
{
    let n = s.unicode_len();
    let mut found: Option<usize> = None;
    let mut i: usize = 0;
    while i < n
        invariant
            n == s@.len(),
            i <= n,
            match found {
                Some(k) => k as int == last_index_of(s@.subrange(0, i as int), c) && k < i,
                None => last_index_of(s@.subrange(0, i as int), c) == -1,
            },
        decreases n - i,
    {
        proof {
            assert(s@.subrange(0, i + 1).drop_last() =~= s@.subrange(0, i as int));
        }
        if s.get_char(i) == c {
            found = Some(i);
        }
        i = i + 1;
    }
    proof {
        assert(s@.subrange(0, n as int) =~= s@);
    }
    found
}

/// The extension of the file that a path names, if it has one.
pub fn path_extension(path: &str) -> (r: Option<String>)
    ensures
        crate::job::opt_text(r) == extension_of(file_name_of(path@)),
{
    let n = path.unicode_len();
    let start: usize = match last_index(path, '/') {
        Some(k) => k + 1,
        None => 0,
    };
    let name = path.substring_char(start, n);
    proof {
        lemma_last_index_bounds(path@, '/');
        lemma_last_index_bounds(name@, '.');
        reveal_strlit("..");
    }
    if crate::text::same_text(name, "..") {
        return None;
    }
    match last_index(name, '.') {
        Some(d) => if d == 0 {
            None
        } else {
            Some(crate::text::owned(name.substring_char(d + 1, name.unicode_len())))
        },
        None => None,
    }
}

} // verus!
