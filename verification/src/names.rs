//! File-name classification: extension extraction, the accepted set of video
//! extensions, and the sidecar subtitle name derived from a video's name.
//!
//! Names are byte strings, exactly as the front end reads them from the
//! filesystem. The extension of a name is the part after the last dot,
//! except that a dot in the first position starts no extension (a leading-dot
//! name such as a hidden file has none).

use vstd::prelude::*;

verus! {

/// The byte value of `'.'`.
pub const DOT: u8 = 46;

/// ASCII upper-case letters fold to lower case; every other byte is kept.
pub open spec fn to_lower(b: u8) -> u8 {
    if 65 <= b && b <= 90 {
        (b + 32) as u8
    } else {
        b
    }
}

/// A byte string folded to ASCII lower case.
pub open spec fn lower_seq(s: Seq<u8>) -> Seq<u8> {
    s.map_values(|b: u8| to_lower(b))
}

/// The index of the last `'.'` in `s`, if any.
pub open spec fn last_dot(s: Seq<u8>) -> Option<int>
    decreases s.len(),
{
    if s.len() == 0 {
        None
    } else if s.last() == DOT {
        Some(s.len() - 1)
    } else {
        last_dot(s.drop_last())
    }
}

/// The extension of a file name: the part after the last dot. A name with no
/// dot, or whose only dot is the leading byte, has no extension.
pub open spec fn extension_of(name: Seq<u8>) -> Option<Seq<u8>> {
    match last_dot(name) {
        None => None,
        Some(i) => if i == 0 {
            None
        } else {
            Some(name.subrange(i + 1, name.len() as int))
        },
    }
}

pub open spec fn has_extension(name: Seq<u8>) -> bool {
    extension_of(name) is Some
}

pub open spec fn ext_mp4() -> Seq<u8> {
    seq![109u8, 112u8, 52u8]
}

pub open spec fn ext_mkv() -> Seq<u8> {
    seq![109u8, 107u8, 118u8]
}

pub open spec fn ext_avi() -> Seq<u8> {
    seq![97u8, 118u8, 105u8]
}

pub open spec fn ext_mov() -> Seq<u8> {
    seq![109u8, 111u8, 118u8]
}

pub open spec fn ext_wmv() -> Seq<u8> {
    seq![119u8, 109u8, 118u8]
}

pub open spec fn ext_flv() -> Seq<u8> {
    seq![102u8, 108u8, 118u8]
}

pub open spec fn ext_webm() -> Seq<u8> {
    seq![119u8, 101u8, 98u8, 109u8]
}

/// An extension is accepted when its lower-case form is one of
/// mp4, mkv, avi, mov, wmv, flv, webm.
pub open spec fn is_accepted_extension(e: Seq<u8>) -> bool {
    ||| lower_seq(e) == ext_mp4()
    ||| lower_seq(e) == ext_mkv()
    ||| lower_seq(e) == ext_avi()
    ||| lower_seq(e) == ext_mov()
    ||| lower_seq(e) == ext_wmv()
    ||| lower_seq(e) == ext_flv()
    ||| lower_seq(e) == ext_webm()
}

/// What the selection pass sees of a file name.
#[derive(Clone, Copy, Debug, PartialEq, Eq, Structural)]
pub enum NameClass {
    /// The name has no extension: a fatal input error for the walk.
    NoExtension,
    /// The extension is in the accepted video set.
    AcceptedVideo,
    /// The extension exists but is not an accepted video extension.
    Other,
}

pub open spec fn classify_spec(name: Seq<u8>) -> NameClass {
    match extension_of(name) {
        None => NameClass::NoExtension,
        Some(e) => if is_accepted_extension(e) {
            NameClass::AcceptedVideo
        } else {
            NameClass::Other
        },
    }
}

pub open spec fn is_accepted_name(name: Seq<u8>) -> bool {
    classify_spec(name) == NameClass::AcceptedVideo
}

/// The stem of a name: everything before the last dot, or the whole name when
/// the name has no extension.
pub open spec fn stem_of(name: Seq<u8>) -> Seq<u8> {
    match last_dot(name) {
        Some(i) => if i > 0 {
            name.subrange(0, i)
        } else {
            name
        },
        None => name,
    }
}

/// The suffix `".srt"`.
pub open spec fn srt_suffix() -> Seq<u8> {
    seq![46u8, 115u8, 114u8, 116u8]
}

/// The sidecar subtitle name: the stem with `.srt` in place of the extension
/// (or appended, for a name without one).
pub open spec fn sidecar_subtitle_spec(name: Seq<u8>) -> Seq<u8> {
    stem_of(name) + srt_suffix()
}

proof fn lemma_last_dot_at(s: Seq<u8>, i: int)
    requires
        0 <= i < s.len(),
        s[i] == DOT,
        forall|j: int| i < j < s.len() ==> s[j] != DOT,
    ensures
        last_dot(s) == Some(i),
    decreases s.len(),
{
    if i < s.len() - 1 {
        lemma_last_dot_at(s.drop_last(), i);
    }
}

proof fn lemma_last_dot_none(s: Seq<u8>)
    requires
        forall|j: int| 0 <= j < s.len() ==> s[j] != DOT,
    ensures
        last_dot(s) is None,
    decreases s.len(),
{
    if s.len() > 0 {
        lemma_last_dot_none(s.drop_last());
    }
}

/// The index of the last `'.'` in the name, scanning from the end.
pub fn find_last_dot(name: &Vec<u8>) -> (r: Option<usize>)
    ensures
        match r {
            None => last_dot(name@) is None,
            Some(i) => i < name@.len() && last_dot(name@) == Some(i as int),
        },
{
    let mut i: usize = name.len();
    while i > 0
        invariant
            i <= name@.len(),
            forall|j: int| i <= j < name@.len() ==> name@[j] != DOT,
        decreases i,
    {
        i = i - 1;
        if name[i] == DOT {
            proof {
                lemma_last_dot_at(name@, i as int);
            }
            return Some(i);
        }
    }
    proof {
        lemma_last_dot_none(name@);
    }
    None
}

fn lower_byte(b: u8) -> (r: u8)
    ensures
        r == to_lower(b),
{
    if 65 <= b && b <= 90 {
        b + 32
    } else {
        b
    }
}

/// The extension of the name, folded to lower case, or `None` for a name
/// without an extension.
pub fn lowered_extension(name: &Vec<u8>) -> (r: Option<Vec<u8>>)
    ensures
        match r {
            None => extension_of(name@) is None,
            Some(v) => {
                &&& extension_of(name@) is Some
                &&& v@ == lower_seq(extension_of(name@)->Some_0)
            },
        },
{
    match find_last_dot(name) {
        None => None,
        Some(i) => {
            if i == 0 {
                None
            } else {
                let n: usize = name.len();
                let mut v: Vec<u8> = Vec::new();
                let mut j: usize = i + 1;
                while j < name.len()
                    invariant
                        i + 1 <= j <= name@.len(),
                        0 < i < name@.len(),
                        v@ == lower_seq(name@.subrange(i + 1, j as int)),
                    decreases name@.len() - j,
                {
                    let b = lower_byte(name[j]);
                    v.push(b);
                    proof {
                        assert(v@ =~= lower_seq(name@.subrange(i + 1, j + 1 as int)));
                    }
                    j = j + 1;
                }
                proof {
                    assert(name@.subrange(i + 1, name@.len() as int) == extension_of(
                        name@,
                    )->Some_0);
                }
                Some(v)
            }
        },
    }
}

/// Whether an already-lowered extension is in the accepted set.
fn lowered_is_accepted(l: &Vec<u8>) -> (r: bool)
    ensures
        r == {
            ||| l@ == ext_mp4()
            ||| l@ == ext_mkv()
            ||| l@ == ext_avi()
            ||| l@ == ext_mov()
            ||| l@ == ext_wmv()
            ||| l@ == ext_flv()
            ||| l@ == ext_webm()
        },
{
    if l.len() == 3 {
        let a = l[0];
        let b = l[1];
        let c = l[2];
        let r = (a == 109 && b == 112 && c == 52) || (a == 109 && b == 107 && c == 118) || (a == 97
            && b == 118 && c == 105) || (a == 109 && b == 111 && c == 118) || (a == 119 && b == 109
            && c == 118) || (a == 102 && b == 108 && c == 118);
        proof {
            if r {
                if a == 109 && b == 112 && c == 52 {
                    assert(l@ =~= ext_mp4());
                } else if a == 109 && b == 107 && c == 118 {
                    assert(l@ =~= ext_mkv());
                } else if a == 97 && b == 118 && c == 105 {
                    assert(l@ =~= ext_avi());
                } else if a == 109 && b == 111 && c == 118 {
                    assert(l@ =~= ext_mov());
                } else if a == 119 && b == 109 && c == 118 {
                    assert(l@ =~= ext_wmv());
                } else {
                    assert(l@ =~= ext_flv());
                }
            }
        }
        r
    } else if l.len() == 4 {
        let r = l[0] == 119 && l[1] == 101 && l[2] == 98 && l[3] == 109;
        proof {
            if r {
                assert(l@ =~= ext_webm());
            }
        }
        r
    } else {
        false
    }
}

/// Classifies a file name: no extension, an accepted video extension, or some
/// other extension.
pub fn classify_name(name: &Vec<u8>) -> (r: NameClass)
    ensures
        r == classify_spec(name@),
{
    match lowered_extension(name) {
        None => NameClass::NoExtension,
        Some(l) => {
            if lowered_is_accepted(&l) {
                NameClass::AcceptedVideo
            } else {
                NameClass::Other
            }
        },
    }
}

/// The sidecar subtitle name for a video: its stem followed by `.srt`.
pub fn sidecar_subtitle_name(name: &Vec<u8>) -> (r: Vec<u8>)
    ensures
        r@ == sidecar_subtitle_spec(name@),
{
    let stem_len: usize = match find_last_dot(name) {
        Some(i) => if i > 0 {
            i
        } else {
            name.len()
        },
        None => name.len(),
    };
    let mut v: Vec<u8> = Vec::new();
    let mut j: usize = 0;
    while j < stem_len
        invariant
            stem_len <= name@.len(),
            j <= stem_len,
            v@ == name@.subrange(0, j as int),
        decreases stem_len - j,
    {
        let b = name[j];
        v.push(b);
        proof {
            assert(v@ =~= name@.subrange(0, j + 1 as int));
        }
        j = j + 1;
    }
    v.push(46);
    v.push(115);
    v.push(114);
    v.push(116);
    proof {
        assert(stem_of(name@) =~= name@.subrange(0, stem_len as int));
        assert(v@ =~= sidecar_subtitle_spec(name@));
    }
    v
}

} // verus!
