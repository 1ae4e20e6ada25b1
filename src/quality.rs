//! Quality resolution: how a requested quality becomes encoder arguments.
use vstd::prelude::*;
use crate::text::{joined, owned, same_text};

verus! {

/// A decimal digit.
pub open spec fn is_digit(c: char) -> bool {
    '0' <= c && c <= '9'
}

/// A non-empty run of decimal digits.
pub open spec fn is_digits(s: Seq<char>) -> bool {
    s.len() > 0 && forall|i: int| 0 <= i < s.len() ==> is_digit(#[trigger] s[i])
}

/// The value of a run of decimal digits.
pub open spec fn digits_value(s: Seq<char>) -> int
    decreases s.len(),
{
    if s.len() == 0 {
        0
    } else {
        digits_value(s.drop_last()) * 10 + (s.last() as int - '0' as int)
    }
}

/// A decimal integer with an optional leading `+` or `-`.
pub open spec fn signed_decimal(s: Seq<char>) -> Option<int> {
    if s.len() > 0 && s[0] == '-' {
        if is_digits(s.drop_first()) {
            Some(-digits_value(s.drop_first()))
        } else {
            None
        }
    } else if s.len() > 0 && s[0] == '+' {
        if is_digits(s.drop_first()) {
            Some(digits_value(s.drop_first()))
        } else {
            None
        }
    } else if is_digits(s) {
        Some(digits_value(s))
    } else {
        None
    }
}

/// The `i32` that a text denotes, if it is a decimal integer in range.
pub open spec fn i32_of_text(s: Seq<char>) -> Option<int> {
    match signed_decimal(s) {
        Some(v) => if i32::MIN <= v && v <= i32::MAX {
            Some(v)
        } else {
            None
        },
        None => None,
    }
}

/// Relies on the `FromStr` impl of `i32`: an optional sign and decimal
/// digits, in range, parse; anything else is an error.
#[verifier::external_body]
fn parse_i32(s: &str) -> (r: Option<i32>)
    ensures
        match r {
            Some(v) => i32_of_text(s@) == Some(v as int),
            None => i32_of_text(s@) is None,
        },
{
    s.parse::<i32>().ok()
}

/// The quality-scale index (0 best, 9 worst) for a bitrate in kilobits.
pub open spec fn vbr_index_of(q: int) -> int {
    if q >= 320 {
        0
    } else if q >= 256 {
        1
    } else if q >= 224 {
        2
    } else if q >= 192 {
        3
    } else if q >= 160 {
        4
    } else if q >= 128 {
        5
    } else if q >= 96 {
        6
    } else if q >= 80 {
        7
    } else if q >= 64 {
        8
    } else {
        9
    }
}

/// The bitrate that a quality text stands for; 192 when it is no integer.
pub open spec fn requested_bitrate(q: Seq<char>) -> int {
    match i32_of_text(q) {
        Some(v) => v,
        None => 192,
    }
}

/// The quality-scale index for a parsed bitrate; an unparsable one counts as 192.
pub fn vbr_quality_index(parsed: Option<i32>) -> (r: u8)
    ensures
        r as int == vbr_index_of(
            match parsed {
                Some(v) => v as int,
                None => 192,
            },
        ),
{
    let q: i32 = match parsed {
        Some(v) => v,
        None => 192,
    };
    if q >= 320 {
        0
    } else if q >= 256 {
        1
    } else if q >= 224 {
        2
    } else if q >= 192 {
        3
    } else if q >= 160 {
        4
    } else if q >= 128 {
        5
    } else if q >= 96 {
        6
    } else if q >= 80 {
        7
    } else if q >= 64 {
        8
    } else {
        9
    }
}

/// The quality-scale index for a quality text.
pub fn vbr_index_for_text(q: &str) -> (r: u8)
    ensures
        r as int == vbr_index_of(requested_bitrate(q@)),
{
    vbr_quality_index(parse_i32(q))
}

/// The scale is total and monotonic: 320 and above gives 0, below 64 gives 9,
/// a higher bitrate never gives a worse index, and every index is within 0..=9.
pub proof fn lemma_vbr_scale(a: int, b: int)
    requires
        a <= b,
    ensures
        vbr_index_of(b) <= vbr_index_of(a),
        0 <= vbr_index_of(a) <= 9,
        a >= 320 ==> vbr_index_of(a) == 0,
        a < 64 ==> vbr_index_of(a) == 9,
{
}

/// A text that is no integer resolves to the 192 breakpoint, index 3.
pub proof fn lemma_unparsable_quality(q: Seq<char>)
    requires
        i32_of_text(q) is None,
    ensures
        vbr_index_of(requested_bitrate(q)) == 3,
{
}

/// The text of a single decimal digit.
pub open spec fn digit_text(d: int) -> Seq<char> {
    seq![('0' as int + d) as char]
}

/// The one-character text of an index of the quality scale.
pub fn index_text(d: u8) -> (r: String)
    requires
        d <= 9,
    ensures
        r@ == digit_text(d as int),
{
    let s = match d {
        0 => "0",
        1 => "1",
        2 => "2",
        3 => "3",
        4 => "4",
        5 => "5",
        6 => "6",
        7 => "7",
        8 => "8",
        _ => "9",
    };
    proof {
        reveal_strlit("0");
        reveal_strlit("1");
        reveal_strlit("2");
        reveal_strlit("3");
        reveal_strlit("4");
        reveal_strlit("5");
        reveal_strlit("6");
        reveal_strlit("7");
        reveal_strlit("8");
        reveal_strlit("9");
        assert(s@ =~= digit_text(d as int));
    }
    owned(s)
}

/// A bitrate in kilobits as the encoder takes it: the text, then `k`.
pub open spec fn kilobits(q: Seq<char>) -> Seq<char> {
    q + "k"@
}

/// Formats for which a quality is passed as an explicit bitrate.
pub open spec fn takes_bitrate(format: Seq<char>) -> bool {
    format == "ogg"@ || format == "opus"@ || format == "aac"@ || format == "m4a"@
}

/// The encoder arguments for a requested quality, given the target format and bitrate mode.
pub open spec fn quality_args(format: Seq<char>, mode: Seq<char>, quality: Option<Seq<char>>) -> Seq<
    Seq<char>,
> {
    match quality {
        None => seq![],
        Some(q) => if format == "mp3"@ && mode == "variable"@ {
            seq!["-q:a"@, digit_text(vbr_index_of(requested_bitrate(q)))]
        } else if format == "mp3"@ || takes_bitrate(format) {
            seq!["-b:a"@, kilobits(q)]
        } else {
            seq![]
        },
    }
}

/// `{q}k`.
pub fn kilobits_text(q: &str) -> (r: String)
    ensures
        r@ == kilobits(q@),
{
    joined(q, "k")
}

/// The encoder arguments for a requested quality (empty when none is requested
/// or the format takes no quality).
pub fn quality_arguments(format: &str, mode: &str, quality: Option<&str>) -> (r: Vec<String>)
    ensures
        crate::text::texts(r@) == quality_args(
            format@,
            mode@,
            match quality {
                Some(q) => Some(q@),
                None => None,
            },
        ),
{
    let mut r: Vec<String> = Vec::new();
    match quality {
        None => {},
        Some(q) => {
            let mp3 = same_text(format, "mp3");
            if mp3 && same_text(mode, "variable") {
                crate::text::push_text(&mut r, owned("-q:a"));
                crate::text::push_text(&mut r, index_text(vbr_index_for_text(q)));
            } else if mp3 || same_text(format, "ogg") || same_text(format, "opus") || same_text(
                format,
                "aac",
            ) || same_text(format, "m4a") {
                crate::text::push_text(&mut r, owned("-b:a"));
                crate::text::push_text(&mut r, kilobits_text(q));
            }
        },
    }
    proof {
        assert(crate::text::texts(r@) =~= quality_args(
            format@,
            mode@,
            match quality {
                Some(q) => Some(q@),
                None => None,
            },
        ));
    }
    r
}

} // verus!
