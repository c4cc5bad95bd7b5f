//! The per-root plan: which files each phase acts on, and whether anything
//! is dispatched at all.
//!
//! One invocation takes a set of switches and, for each root path, walks the
//! tree once per enabled phase. In a dry run the selections are only
//! reported; otherwise the transcode phase converts each selected file in
//! turn and the subtitle phase hands its files to the speech-to-text tool.

use vstd::prelude::*;

use crate::fstree::{clone_bytes, metas_view, FileMeta, FileMetaView, FsTree, MissingExtension,
    MissingExtensionView};
use crate::walk::{lemma_walk_error_mode_independent, select_files, walk_node, SelectMode};

verus! {

/// The switches of one invocation, fixed for its whole duration.
#[derive(Clone, Copy, Debug, PartialEq, Eq, Structural)]
pub struct RunConfig {
    /// Echo tool output while dispatching.
    pub debug: bool,
    /// Report what would be done; dispatch nothing.
    pub dry_run: bool,
    /// Select files already at the target codec too.
    pub include_h264: bool,
    /// Skip the transcode phase entirely.
    pub no_transcode: bool,
    /// Run the subtitle-generation phase.
    pub gen_subs: bool,
}

/// The selection mode of the transcode phase under a configuration.
pub open spec fn transcode_mode(cfg: RunConfig) -> SelectMode {
    SelectMode::Transcode { include_target: cfg.include_h264 }
}

/// What one root path gets: the files of each enabled phase, in walk order,
/// and whether they are to be dispatched or only reported.
#[derive(Debug)]
pub struct RunPlan {
    /// The transcode phase's files; `None` when the phase is switched off.
    pub transcode: Option<Vec<FileMeta>>,
    /// The subtitle phase's files; `None` when the phase is switched off.
    pub subtitles: Option<Vec<FileMeta>>,
    /// False in a dry run: the lists are reported and no tool is invoked.
    pub dispatch: bool,
}

/// Builds the plan for one root: walks the tree once per enabled phase.
/// The walks abort together, on the first candidate file without an
/// extension; an error of the subtitle walk alone cannot happen, since the
/// fatal error does not depend on the phase predicate.
pub fn plan_run(cfg: &RunConfig, root: &FsTree) -> (r: Result<RunPlan, MissingExtension>)
    ensures
        match r {
            Ok(p) => {
                &&& p.dispatch == !cfg.dry_run
                &&& match p.transcode {
                    None => cfg.no_transcode,
                    Some(v) => !cfg.no_transcode && walk_node(*root, transcode_mode(*cfg))
                        == Ok::<Seq<FileMetaView>, MissingExtensionView>(metas_view(v@)),
                }
                &&& match p.subtitles {
                    None => !cfg.gen_subs,
                    Some(v) => cfg.gen_subs && walk_node(*root, SelectMode::Subtitles) == Ok::<
                        Seq<FileMetaView>,
                        MissingExtensionView,
                    >(metas_view(v@)),
                }
            },
            Err(e) => {
                &&& !cfg.no_transcode || cfg.gen_subs
                &&& !cfg.no_transcode ==> walk_node(*root, transcode_mode(*cfg)) == Err::<
                    Seq<FileMetaView>,
                    MissingExtensionView,
                >(e@)
                &&& cfg.gen_subs ==> walk_node(*root, SelectMode::Subtitles) == Err::<
                    Seq<FileMetaView>,
                    MissingExtensionView,
                >(e@)
            },
        },
{
    let transcode: Option<Vec<FileMeta>> = if !cfg.no_transcode {
        match select_files(root, SelectMode::Transcode { include_target: cfg.include_h264 }) {
            Ok(v) => Some(v),
            Err(e) => {
                proof {
                    if cfg.gen_subs {
                        lemma_walk_error_mode_independent(
                            *root,
                            transcode_mode(*cfg),
                            SelectMode::Subtitles,
                        );
                    }
                }
                return Err(e);
            },
        }
    } else {
        None
    };
    let subtitles: Option<Vec<FileMeta>> = if cfg.gen_subs {
        match select_files(root, SelectMode::Subtitles) {
            Ok(v) => Some(v),
            Err(e) => {
                proof {
                    if !cfg.no_transcode {
                        lemma_walk_error_mode_independent(
                            *root,
                            SelectMode::Subtitles,
                            transcode_mode(*cfg),
                        );
                    }
                }
                return Err(e);
            },
        }
    } else {
        None
    };
    Ok(RunPlan { transcode, subtitles, dispatch: !cfg.dry_run })
}

/// One file's request to the speech-to-text tool: transcribe the input and
/// write the subtitle file into the file's own directory.
pub struct SubtitleRequest {
    /// The name of the file to transcribe.
    pub input_name: Vec<u8>,
    /// The directory the subtitle output is written into: the input's own.
    pub output_dir: Vec<u8>,
}

/// Builds the speech-to-text request for one selected file.
pub fn subtitle_request(f: &FileMeta) -> (r: SubtitleRequest)
    ensures
        r.input_name@ == f@.name,
        r.output_dir@ == f@.dir,
{
    SubtitleRequest { input_name: clone_bytes(&f.name), output_dir: clone_bytes(&f.dir) }
}

/// The fixed language the speech-to-text tool is asked for.
pub fn subtitle_language() -> (r: &'static str)
    ensures
        r@ == "English"@,
{
    "English"
}

/// The fixed model size the speech-to-text tool is asked for.
pub fn subtitle_model() -> (r: &'static str)
    ensures
        r@ == "medium"@,
{
    "medium"
}

/// The fixed maximum subtitle line width handed to the speech-to-text tool.
pub fn subtitle_line_width() -> (r: &'static str)
    ensures
        r@ == "50"@,
{
    "50"
}

/// The fixed size of the subtitle phase's worker pool.
pub fn subtitle_worker_count() -> (r: usize)
    ensures
        r == 4,
{
    4
}

} // verus!
