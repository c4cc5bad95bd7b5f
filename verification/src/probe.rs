//! Interpretation of probe-tool output.
//!
//! The codec probe prints the primary video stream's codec name; the file is
//! already at the target codec exactly when that output, stripped of ASCII
//! whitespace at both ends, equals `h264`. Empty output therefore never
//! matches: such a file is conservatively selected for conversion. The
//! subtitle probe prints one line per subtitle stream; any output at all
//! means the file has embedded subtitles.

use vstd::prelude::*;

verus! {

/// ASCII whitespace: space, tab, line feed, vertical tab, form feed,
/// carriage return.
pub open spec fn is_ascii_space(b: u8) -> bool {
    b == 32 || (9 <= b && b <= 13)
}

/// `s` with leading ASCII whitespace removed.
pub open spec fn trim_front(s: Seq<u8>) -> Seq<u8>
    decreases s.len(),
{
    if s.len() > 0 && is_ascii_space(s.first()) {
        trim_front(s.drop_first())
    } else {
        s
    }
}

/// `s` with trailing ASCII whitespace removed.
pub open spec fn trim_back(s: Seq<u8>) -> Seq<u8>
    decreases s.len(),
{
    if s.len() > 0 && is_ascii_space(s.last()) {
        trim_back(s.drop_last())
    } else {
        s
    }
}

/// `s` with ASCII whitespace removed at both ends.
pub open spec fn trimmed(s: Seq<u8>) -> Seq<u8> {
    trim_back(trim_front(s))
}

/// The target codec name, `h264`.
pub open spec fn target_codec() -> Seq<u8> {
    seq![104u8, 50u8, 54u8, 52u8]
}

/// Whether codec-probe output names the target codec.
pub open spec fn output_names_target(out: Seq<u8>) -> bool {
    trimmed(out) == target_codec()
}

/// Whether subtitle-probe output reports at least one subtitle stream.
pub open spec fn reports_subtitle_stream(out: Seq<u8>) -> bool {
    out.len() > 0
}

proof fn lemma_trim_front_idx(s: Seq<u8>, lo: int)
    requires
        0 <= lo <= s.len(),
        forall|j: int| 0 <= j < lo ==> is_ascii_space(s[j]),
        lo == s.len() || !is_ascii_space(s[lo]),
    ensures
        trim_front(s) =~= s.subrange(lo, s.len() as int),
    decreases lo,
{
    if lo > 0 {
        lemma_trim_front_idx(s.drop_first(), lo - 1);
    }
}

proof fn lemma_trim_back_idx(s: Seq<u8>, hi: int)
    requires
        0 <= hi <= s.len(),
        forall|j: int| hi <= j < s.len() ==> is_ascii_space(s[j]),
        hi == 0 || !is_ascii_space(s[hi - 1]),
    ensures
        trim_back(s) =~= s.subrange(0, hi),
    decreases s.len(),
{
    if hi < s.len() {
        lemma_trim_back_idx(s.drop_last(), hi);
    }
}

fn is_space(b: u8) -> (r: bool)
    ensures
        r == is_ascii_space(b),
{
    b == 32 || (9 <= b && b <= 13)
}

/// Decides whether probe output, trimmed of surrounding whitespace, names the
/// target codec.
pub fn codec_output_names_target(out: &Vec<u8>) -> (r: bool)
    ensures
        r == output_names_target(out@),
{
    let n: usize = out.len();
    let mut lo: usize = 0;
    while lo < n && is_space(out[lo])
        invariant
            lo <= n,
            n == out@.len(),
            forall|j: int| 0 <= j < lo ==> is_ascii_space(out@[j]),
        decreases n - lo,
    {
        lo = lo + 1;
    }
    let mut hi: usize = n;
    while hi > lo && is_space(out[hi - 1])
        invariant
            lo <= hi <= n,
            n == out@.len(),
            forall|j: int| hi <= j < n ==> is_ascii_space(out@[j]),
        decreases hi,
    {
        hi = hi - 1;
    }
    proof {
        lemma_trim_front_idx(out@, lo as int);
        lemma_trim_back_idx(out@.subrange(lo as int, n as int), hi - lo as int);
        assert(trimmed(out@) =~= out@.subrange(lo as int, hi as int));
    }
    if hi - lo == 4 {
        let r = out[lo] == 104 && out[lo + 1] == 50 && out[lo + 2] == 54 && out[lo + 3] == 52;
        proof {
            if r {
                assert(out@.subrange(lo as int, hi as int) =~= target_codec());
            } else {
                assert(out@.subrange(lo as int, hi as int) != target_codec());
            }
        }
        r
    } else {
        proof {
            assert(trimmed(out@).len() != 4);
        }
        false
    }
}

/// Decides whether subtitle-probe output reports an embedded subtitle stream.
pub fn probe_reports_subtitles(out: &Vec<u8>) -> (r: bool)
    ensures
        r == reports_subtitle_stream(out@),
{
    out.len() > 0
}

} // verus!
