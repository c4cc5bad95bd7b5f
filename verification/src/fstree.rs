//! The in-memory picture of a directory tree that one selection pass works
//! on.
//!
//! The front end reads the filesystem and the probe tools once per run and
//! records, for every file it can see, the facts the selection logic needs:
//! the file's name, the directory it sits in, and the three probe facts.
//! Selection is then a pure computation over this tree.

use vstd::prelude::*;

verus! {

/// The facts the selection pass knows of one file.
#[derive(Debug)]
pub struct FileMeta {
    /// The final path component, as read from the directory.
    pub name: Vec<u8>,
    /// The directory the file sits in, in the front end's own encoding.
    pub dir: Vec<u8>,
    /// Whether the codec probe reported the file's primary video stream as
    /// already at the target codec.
    pub codec_is_target: bool,
    /// Whether the subtitle probe reported an embedded subtitle stream.
    pub embedded_subs: bool,
    /// Whether a sidecar subtitle file sits beside the file.
    pub sidecar_subs: bool,
}

/// The mathematical value of a [`FileMeta`].
pub struct FileMetaView {
    pub name: Seq<u8>,
    pub dir: Seq<u8>,
    pub codec_is_target: bool,
    pub embedded_subs: bool,
    pub sidecar_subs: bool,
}

impl View for FileMeta {
    type V = FileMetaView;

    open spec fn view(&self) -> FileMetaView {
        FileMetaView {
            name: self.name@,
            dir: self.dir@,
            codec_is_target: self.codec_is_target,
            embedded_subs: self.embedded_subs,
            sidecar_subs: self.sidecar_subs,
        }
    }
}

/// The values of a list of file records.
pub open spec fn metas_view(v: Seq<FileMeta>) -> Seq<FileMetaView> {
    v.map_values(|m: FileMeta| m@)
}

/// Copies a byte string.
pub fn clone_bytes(v: &Vec<u8>) -> (r: Vec<u8>)
    ensures
        r@ == v@,
{
    let mut r: Vec<u8> = Vec::new();
    let mut i: usize = 0;
    while i < v.len()
        invariant
            i <= v@.len(),
            r@ == v@.subrange(0, i as int),
        decreases v@.len() - i,
    {
        let b = v[i];
        r.push(b);
        proof {
            assert(r@ =~= v@.subrange(0, i + 1 as int));
        }
        i = i + 1;
    }
    proof {
        assert(r@ =~= v@);
    }
    r
}

impl Clone for FileMeta {
    fn clone(&self) -> (r: Self)
        ensures
            r@ == self@,
    {
        FileMeta {
            name: clone_bytes(&self.name),
            dir: clone_bytes(&self.dir),
            codec_is_target: self.codec_is_target,
            embedded_subs: self.embedded_subs,
            sidecar_subs: self.sidecar_subs,
        }
    }
}

/// One node of the tree a selection pass walks.
pub enum FsTree {
    /// A plain file, with the probe facts the front end gathered for it.
    File(FileMeta),
    /// A directory. `readable` is false when its listing could not be read;
    /// such a directory yields no files but does not abort the walk.
    Dir { entries: Vec<FsTree>, readable: bool },
    /// A path whose metadata could not be read at all. It yields no files.
    Inaccessible,
}

/// The fatal walk error: a candidate file without an extension.
#[derive(Debug)]
pub struct MissingExtension {
    pub name: Vec<u8>,
    pub dir: Vec<u8>,
}

/// The mathematical value of a [`MissingExtension`].
pub struct MissingExtensionView {
    pub name: Seq<u8>,
    pub dir: Seq<u8>,
}

impl View for MissingExtension {
    type V = MissingExtensionView;

    open spec fn view(&self) -> MissingExtensionView {
        MissingExtensionView { name: self.name@, dir: self.dir@ }
    }
}

} // verus!
