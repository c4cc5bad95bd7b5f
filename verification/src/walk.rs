//! The tree walker: one recursive pass that selects the files a phase will
//! act on.
//!
//! A file is a candidate when its extension, folded to lower case, is in the
//! accepted video set. The transcode phase selects candidates not already at
//! the target codec (or every candidate, when the run asks to include them);
//! the subtitle phase selects candidates that have neither an embedded
//! subtitle stream nor a sidecar subtitle file. A candidate file without any
//! extension aborts the walk with an error naming it; an unreadable
//! directory or an inaccessible root yields no files but aborts nothing.
//! Results come in traversal order, depth first.

use vstd::prelude::*;

use crate::fstree::{FileMeta, FileMetaView, FsTree, MissingExtension, MissingExtensionView};
use crate::fstree::{clone_bytes, metas_view};
use crate::names;
use crate::names::NameClass;

verus! {

/// Which of the two phase predicates a walk applies.
#[derive(Clone, Copy, Debug, PartialEq, Eq, Structural)]
pub enum SelectMode {
    /// Select files to transcode. With `include_target` set, files already
    /// at the target codec are selected too.
    Transcode { include_target: bool },
    /// Select files that lack subtitles in any form.
    Subtitles,
}

/// The per-file selection predicate of a mode.
pub open spec fn file_selected(f: FileMetaView, mode: SelectMode) -> bool {
    &&& names::is_accepted_name(f.name)
    &&& match mode {
        SelectMode::Transcode { include_target } => include_target || !f.codec_is_target,
        SelectMode::Subtitles => !f.embedded_subs && !f.sidecar_subs,
    }
}

/// What a walk yields for a single file.
pub open spec fn walk_file(f: FileMetaView, mode: SelectMode) -> Result<
    Seq<FileMetaView>,
    MissingExtensionView,
> {
    if !names::has_extension(f.name) {
        Err(MissingExtensionView { name: f.name, dir: f.dir })
    } else if file_selected(f, mode) {
        Ok(seq![f])
    } else {
        Ok(Seq::empty())
    }
}

/// What a walk yields for a node: its selected files in traversal order, or
/// the first missing-extension error it meets.
pub open spec fn walk_node(n: FsTree, mode: SelectMode) -> Result<
    Seq<FileMetaView>,
    MissingExtensionView,
>
    decreases n,
{
    match n {
        FsTree::File(f) => walk_file(f@, mode),
        FsTree::Dir { entries, readable } => if readable {
            walk_list(entries@, mode)
        } else {
            Ok(Seq::empty())
        },
        FsTree::Inaccessible => Ok(Seq::empty()),
    }
}

/// What a walk yields for the entries of a directory, in order.
pub open spec fn walk_list(s: Seq<FsTree>, mode: SelectMode) -> Result<
    Seq<FileMetaView>,
    MissingExtensionView,
>
    decreases s,
{
    if s.len() == 0 {
        Ok(Seq::empty())
    } else {
        match walk_list(s.drop_last(), mode) {
            Err(e) => Err(e),
            Ok(pre) => match walk_node(s.last(), mode) {
                Err(e) => Err(e),
                Ok(x) => Ok(pre + x),
            },
        }
    }
}

proof fn lemma_walk_list_step(s: Seq<FsTree>, mode: SelectMode, k: int)
    requires
        0 <= k < s.len(),
    ensures
        walk_list(s.take(k + 1), mode) == (match walk_list(s.take(k), mode) {
            Err(e) => Err::<Seq<FileMetaView>, MissingExtensionView>(e),
            Ok(pre) => match walk_node(s[k], mode) {
                Err(e) => Err::<Seq<FileMetaView>, MissingExtensionView>(e),
                Ok(x) => Ok::<Seq<FileMetaView>, MissingExtensionView>(pre + x),
            },
        }),
{
    let t = s.take(k + 1);
    assert(t.drop_last() =~= s.take(k));
    assert(t.last() == s[k]);
}

proof fn lemma_walk_list_err_persists(s: Seq<FsTree>, mode: SelectMode, k: int)
    requires
        0 <= k <= s.len(),
        walk_list(s.take(k), mode) is Err,
    ensures
        walk_list(s, mode) == walk_list(s.take(k), mode),
    decreases s.len() - k,
{
    if k < s.len() {
        lemma_walk_list_step(s, mode, k);
        lemma_walk_list_err_persists(s, mode, k + 1);
    } else {
        assert(s.take(k) =~= s);
    }
}

/// The bare extension filter: what a walk yields when every candidate video
/// file counts, regardless of any probe result.
pub open spec fn candidates_node(n: FsTree) -> Result<Seq<FileMetaView>, MissingExtensionView>
    decreases n,
{
    match n {
        FsTree::File(f) => if !names::has_extension(f@.name) {
            Err(MissingExtensionView { name: f@.name, dir: f@.dir })
        } else if names::is_accepted_name(f@.name) {
            Ok(seq![f@])
        } else {
            Ok(Seq::empty())
        },
        FsTree::Dir { entries, readable } => if readable {
            candidates_list(entries@)
        } else {
            Ok(Seq::empty())
        },
        FsTree::Inaccessible => Ok(Seq::empty()),
    }
}

pub open spec fn candidates_list(s: Seq<FsTree>) -> Result<Seq<FileMetaView>, MissingExtensionView>
    decreases s,
{
    if s.len() == 0 {
        Ok(Seq::empty())
    } else {
        match candidates_list(s.drop_last()) {
            Err(e) => Err(e),
            Ok(pre) => match candidates_node(s.last()) {
                Err(e) => Err(e),
                Ok(x) => Ok(pre + x),
            },
        }
    }
}

/// Law: a walk returns only matching files. Every record in a successful
/// walk satisfies the mode's selection predicate — in particular, its
/// lower-cased extension is in the accepted set, at any nesting depth.
pub proof fn lemma_walk_returns_only_matching(n: FsTree, mode: SelectMode)
    ensures
        walk_node(n, mode) matches Ok(s) ==> forall|i: int|
            0 <= i < s.len() ==> #[trigger] file_selected(s[i], mode),
    decreases n,
{
    match n {
        FsTree::Dir { entries, readable } => {
            if readable {
                lemma_walk_list_returns_only_matching(entries@, mode);
            }
        },
        _ => {},
    }
}

proof fn lemma_walk_list_returns_only_matching(s: Seq<FsTree>, mode: SelectMode)
    ensures
        walk_list(s, mode) matches Ok(t) ==> forall|i: int|
            0 <= i < t.len() ==> #[trigger] file_selected(t[i], mode),
    decreases s,
{
    if s.len() > 0 {
        lemma_walk_list_returns_only_matching(s.drop_last(), mode);
        lemma_walk_returns_only_matching(s.last(), mode);
        match walk_list(s, mode) {
            Ok(t) => {
                let pre = walk_list(s.drop_last(), mode)->Ok_0;
                let x = walk_node(s.last(), mode)->Ok_0;
                assert forall|i: int| 0 <= i < t.len() implies #[trigger] file_selected(
                    t[i],
                    mode,
                ) by {
                    if i < pre.len() {
                        assert(t[i] == pre[i]);
                    } else {
                        assert(t[i] == x[i - pre.len()]);
                    }
                }
            },
            Err(_) => {},
        }
    }
}

/// Law: a successful walk returns only files whose lower-cased extension is
/// in the accepted set, regardless of nesting depth.
pub proof fn lemma_walk_returns_only_accepted(n: FsTree, mode: SelectMode)
    ensures
        walk_node(n, mode) matches Ok(s) ==> forall|i: int|
            0 <= i < s.len() ==> names::is_accepted_name(#[trigger] s[i].name),
{
    lemma_walk_returns_only_matching(n, mode);
    match walk_node(n, mode) {
        Ok(s) => {
            assert forall|i: int| 0 <= i < s.len() implies names::is_accepted_name(
                #[trigger] s[i].name,
            ) by {
                assert(file_selected(s[i], mode));
            }
        },
        Err(_) => {},
    }
}

/// Law: under default flags the transcode walk never selects a file already
/// at the target codec. Transcoding is therefore idempotent at the selection
/// level: a second run over files the first run normalized selects nothing
/// of them again.
pub proof fn lemma_transcode_walk_skips_target(n: FsTree)
    ensures
        walk_node(n, SelectMode::Transcode { include_target: false }) matches Ok(s)
            ==> forall|i: int| 0 <= i < s.len() ==> !(#[trigger] s[i]).codec_is_target,
{
    let mode = SelectMode::Transcode { include_target: false };
    lemma_walk_returns_only_matching(n, mode);
    match walk_node(n, mode) {
        Ok(s) => {
            assert forall|i: int| 0 <= i < s.len() implies !(#[trigger] s[
                i
            ]).codec_is_target by {
                assert(file_selected(s[i], mode));
            }
        },
        Err(_) => {},
    }
}

/// Law: with `include_target` set the codec predicate is bypassed — the
/// transcode walk is exactly the extension filter, whatever each file's
/// probed codec was.
pub proof fn lemma_include_target_bypasses_codec(n: FsTree)
    ensures
        walk_node(n, SelectMode::Transcode { include_target: true }) == candidates_node(n),
    decreases n,
{
    match n {
        FsTree::Dir { entries, readable } => {
            if readable {
                lemma_include_target_bypasses_codec_list(entries@);
            }
        },
        _ => {},
    }
}

proof fn lemma_include_target_bypasses_codec_list(s: Seq<FsTree>)
    ensures
        walk_list(s, SelectMode::Transcode { include_target: true }) == candidates_list(s),
    decreases s,
{
    if s.len() > 0 {
        lemma_include_target_bypasses_codec_list(s.drop_last());
        lemma_include_target_bypasses_codec(s.last());
    }
}

/// Law: whether a walk aborts, and with which file, does not depend on the
/// phase predicate: the missing-extension error is a property of the tree
/// alone.
pub proof fn lemma_walk_error_mode_independent(n: FsTree, m1: SelectMode, m2: SelectMode)
    ensures
        (walk_node(n, m1) is Err) == (walk_node(n, m2) is Err),
        walk_node(n, m1) matches Err(e) ==> walk_node(n, m2) == Err::<
            Seq<FileMetaView>,
            MissingExtensionView,
        >(e),
    decreases n,
{
    match n {
        FsTree::Dir { entries, readable } => {
            if readable {
                lemma_walk_list_error_mode_independent(entries@, m1, m2);
            }
        },
        _ => {},
    }
}

proof fn lemma_walk_list_error_mode_independent(s: Seq<FsTree>, m1: SelectMode, m2: SelectMode)
    ensures
        (walk_list(s, m1) is Err) == (walk_list(s, m2) is Err),
        walk_list(s, m1) matches Err(e) ==> walk_list(s, m2) == Err::<
            Seq<FileMetaView>,
            MissingExtensionView,
        >(e),
    decreases s,
{
    if s.len() > 0 {
        lemma_walk_list_error_mode_independent(s.drop_last(), m1, m2);
        lemma_walk_error_mode_independent(s.last(), m1, m2);
    }
}

/// Law: walking a single file is the same as walking a readable directory
/// whose only entry is that file.
pub proof fn lemma_single_file_like_singleton_dir(d: FsTree, f: FileMeta, mode: SelectMode)
    requires
        d matches FsTree::Dir { entries, readable },
        d->Dir_readable,
        d->Dir_entries@ == seq![FsTree::File(f)],
    ensures
        walk_node(d, mode) == walk_node(FsTree::File(f), mode),
{
    let entries = d->Dir_entries;
    assert(entries@.len() == 1);
    assert(entries@.drop_last() =~= Seq::<FsTree>::empty());
    assert(entries@.last() == FsTree::File(f));
    assert(walk_list(Seq::<FsTree>::empty(), mode) == Ok::<Seq<FileMetaView>, MissingExtensionView>(
        Seq::empty(),
    ));
    match walk_node(FsTree::File(f), mode) {
        Ok(x) => {
            assert(Seq::<FileMetaView>::empty() + x =~= x);
        },
        Err(e) => {},
    }
}

/// Selects the files a phase will act on, walking the tree depth first.
#[verifier::loop_isolation(false)]
pub fn select_files(n: &FsTree, mode: SelectMode) -> (r: Result<Vec<FileMeta>, MissingExtension>)
    ensures
        match r {
            Ok(v) => walk_node(*n, mode) == Ok::<Seq<FileMetaView>, MissingExtensionView>(
                metas_view(v@),
            ),
            Err(e) => walk_node(*n, mode) == Err::<Seq<FileMetaView>, MissingExtensionView>(e@),
        },
    decreases *n,
{
    match n {
        FsTree::Inaccessible => {
            let v: Vec<FileMeta> = Vec::new();
            proof {
                assert(metas_view(v@) =~= Seq::<FileMetaView>::empty());
            }
            Ok(v)
        },
        FsTree::File(f) => {
            match names::classify_name(&f.name) {
                NameClass::NoExtension => Err(
                    MissingExtension { name: clone_bytes(&f.name), dir: clone_bytes(&f.dir) },
                ),
                NameClass::AcceptedVideo => {
                    let selected = match mode {
                        SelectMode::Transcode { include_target } => include_target
                            || !f.codec_is_target,
                        SelectMode::Subtitles => !f.embedded_subs && !f.sidecar_subs,
                    };
                    let mut v: Vec<FileMeta> = Vec::new();
                    if selected {
                        v.push(f.clone());
                        proof {
                            assert(metas_view(v@) =~= seq![f@]);
                        }
                    } else {
                        proof {
                            assert(metas_view(v@) =~= Seq::<FileMetaView>::empty());
                        }
                    }
                    Ok(v)
                },
                NameClass::Other => {
                    let v: Vec<FileMeta> = Vec::new();
                    proof {
                        assert(metas_view(v@) =~= Seq::<FileMetaView>::empty());
                    }
                    Ok(v)
                },
            }
        },
        FsTree::Dir { entries, readable } => {
            if !*readable {
                let v: Vec<FileMeta> = Vec::new();
                proof {
                    assert(metas_view(v@) =~= Seq::<FileMetaView>::empty());
                }
                Ok(v)
            } else {
                let mut out: Vec<FileMeta> = Vec::new();
                let mut i: usize = 0;
                proof {
                    assert(metas_view(out@) =~= Seq::<FileMetaView>::empty());
                }
                while i < entries.len()
                    invariant
                        i <= entries@.len(),
                        walk_list(entries@.take(i as int), mode) == Ok::<
                            Seq<FileMetaView>,
                            MissingExtensionView,
                        >(metas_view(out@)),
                    decreases entries@.len() - i,
                {
                    proof {
                        assert(decreases_to!(*n => (*n)->Dir_entries@[i as int]));
                    }
                    match select_files(&entries[i], mode) {
                        Err(e) => {
                            proof {
                                lemma_walk_list_step(entries@, mode, i as int);
                                lemma_walk_list_err_persists(entries@, mode, i + 1);
                            }
                            return Err(e);
                        },
                        Ok(mut sub) => {
                            let ghost out0 = out@;
                            let ghost sub0 = sub@;
                            out.append(&mut sub);
                            proof {
                                lemma_walk_list_step(entries@, mode, i as int);
                                assert(metas_view(out0 + sub0) =~= metas_view(out0) + metas_view(
                                    sub0,
                                ));
                                assert(metas_view(out@) == metas_view(out0) + metas_view(sub0));
                            }
                        },
                    }
                    i = i + 1;
                }
                proof {
                    assert(entries@.take(entries@.len() as int) =~= entries@);
                }
                Ok(out)
            }
        },
    }
}

} // verus!
