//! The transcode sequence for one file, as a step-by-step state machine.
//!
//! Replacing a file is three tool invocations in a row, each gated on the
//! previous one printing output: the transcoder writes a temporary container
//! beside the source, the muxer rewrites it into a fresh container, and the
//! finalize step renames the fresh container over the source and deletes the
//! temporary one. The machine here makes the decisions; the front end
//! performs each requested invocation and reports what happened. The
//! machine's fields track which sibling artifacts exist, so its contracts
//! say exactly what a completed sequence leaves behind: the source replaced
//! and no `temp_file.mkv` or `new_file.mkv` sibling remaining.

use vstd::prelude::*;

use crate::fstree::{clone_bytes, FileMeta};

verus! {

/// The two tools the transcode sequence drives.
#[derive(Clone, Copy, Debug, PartialEq, Eq, Structural)]
pub enum Tool {
    Transcoder,
    Muxer,
}

/// Why a transcode sequence stopped short of completion.
#[derive(Clone, Copy, Debug, PartialEq, Eq, Structural)]
pub enum Failure {
    /// The tool could not be launched at all: the tool is not installed or
    /// not reachable. Fatal for the whole run.
    Launch(Tool),
    /// The tool ran but printed nothing, the sign that it did no work.
    /// Recoverable: the file is skipped and the run continues.
    NoOutput(Tool),
}

/// Where a transcode sequence stands.
#[derive(Clone, Copy, Debug, PartialEq, Eq, Structural)]
pub enum Step {
    /// Waiting for the transcoder's outcome.
    Transcoding,
    /// Waiting for the muxer's outcome.
    Muxing,
    /// Waiting for the rename-and-delete to be carried out.
    Finalizing,
    /// The sequence ran to its end.
    Done,
    /// The sequence stopped early.
    Failed(Failure),
}

/// What the front end reports of one tool invocation.
#[derive(Clone, Copy, Debug, PartialEq, Eq, Structural)]
pub enum ToolOutcome {
    /// The process could not be started.
    LaunchFailed,
    /// The process ran; `produced_output` says whether it printed anything.
    Ran { produced_output: bool },
}

/// The next invocation the front end owes the sequence.
#[derive(Clone, Copy, Debug, PartialEq, Eq, Structural)]
pub enum ToolRequest {
    /// Run the transcoder: source in, temporary container out, with the
    /// fixed preset file and preset name.
    RunTranscoder,
    /// Run the muxer: source and temporary container in, fresh container
    /// out, subtitle passthrough from the temporary container disabled.
    RunMuxer,
    /// Rename the fresh container over the source and delete the temporary
    /// container.
    Finalize,
}

/// One file's transcode sequence.
pub struct TranscodeJob {
    /// The source file's name.
    pub name: Vec<u8>,
    /// The directory the source sits in; both artifacts are its siblings.
    pub dir: Vec<u8>,
    /// Where the sequence stands.
    pub step: Step,
    /// Whether the temporary container currently exists beside the source.
    pub temp_present: bool,
    /// Whether the fresh container currently exists beside the source.
    pub fresh_present: bool,
    /// Whether the source has been overwritten with the fresh container.
    pub replaced: bool,
}

impl TranscodeJob {
    /// Opens the sequence for one file; the first invocation owed is the
    /// transcoder run.
    pub fn start(file: &FileMeta) -> (r: (TranscodeJob, ToolRequest))
        ensures
            ({
                let (j, req) = r;
                &&& j.name@ == file@.name
                &&& j.dir@ == file@.dir
                &&& j.step == Step::Transcoding
                &&& !j.temp_present
                &&& !j.fresh_present
                &&& !j.replaced
                &&& req == ToolRequest::RunTranscoder
            }),
    {
        let job = TranscodeJob {
            name: clone_bytes(&file.name),
            dir: clone_bytes(&file.dir),
            step: Step::Transcoding,
            temp_present: false,
            fresh_present: false,
            replaced: false,
        };
        (job, ToolRequest::RunTranscoder)
    }

    /// Advances the sequence on a reported tool outcome. Output from the
    /// transcoder means the temporary container now exists and the muxer is
    /// owed; output from the muxer means the fresh container now exists and
    /// the finalize step is owed. No output, or a failed launch, stops the
    /// sequence where it stands — artifacts already written stay behind.
    pub fn on_tool_outcome(&mut self, outcome: ToolOutcome) -> (r: Option<ToolRequest>)
        requires
            old(self).step == Step::Transcoding || old(self).step == Step::Muxing,
        ensures
            final(self).name@ == old(self).name@,
            final(self).dir@ == old(self).dir@,
            final(self).replaced == old(self).replaced,
            old(self).step == Step::Transcoding ==> match outcome {
                ToolOutcome::LaunchFailed => {
                    &&& final(self).step == Step::Failed(Failure::Launch(Tool::Transcoder))
                    &&& final(self).temp_present == old(self).temp_present
                    &&& final(self).fresh_present == old(self).fresh_present
                    &&& r is None
                },
                ToolOutcome::Ran { produced_output } => if produced_output {
                    &&& final(self).step == Step::Muxing
                    &&& final(self).temp_present
                    &&& final(self).fresh_present == old(self).fresh_present
                    &&& r == Some(ToolRequest::RunMuxer)
                } else {
                    &&& final(self).step == Step::Failed(Failure::NoOutput(Tool::Transcoder))
                    &&& final(self).temp_present == old(self).temp_present
                    &&& final(self).fresh_present == old(self).fresh_present
                    &&& r is None
                },
            },
            old(self).step == Step::Muxing ==> match outcome {
                ToolOutcome::LaunchFailed => {
                    &&& final(self).step == Step::Failed(Failure::Launch(Tool::Muxer))
                    &&& final(self).temp_present == old(self).temp_present
                    &&& final(self).fresh_present == old(self).fresh_present
                    &&& r is None
                },
                ToolOutcome::Ran { produced_output } => if produced_output {
                    &&& final(self).step == Step::Finalizing
                    &&& final(self).temp_present == old(self).temp_present
                    &&& final(self).fresh_present
                    &&& r == Some(ToolRequest::Finalize)
                } else {
                    &&& final(self).step == Step::Failed(Failure::NoOutput(Tool::Muxer))
                    &&& final(self).temp_present == old(self).temp_present
                    &&& final(self).fresh_present == old(self).fresh_present
                    &&& r is None
                },
            },
    {
        let at_transcoder = match self.step {
            Step::Transcoding => true,
            _ => false,
        };
        match outcome {
            ToolOutcome::LaunchFailed => {
                let tool = if at_transcoder {
                    Tool::Transcoder
                } else {
                    Tool::Muxer
                };
                self.step = Step::Failed(Failure::Launch(tool));
                None
            },
            ToolOutcome::Ran { produced_output } => {
                if produced_output {
                    if at_transcoder {
                        self.temp_present = true;
                        self.step = Step::Muxing;
                        Some(ToolRequest::RunMuxer)
                    } else {
                        self.fresh_present = true;
                        self.step = Step::Finalizing;
                        Some(ToolRequest::Finalize)
                    }
                } else {
                    let tool = if at_transcoder {
                        Tool::Transcoder
                    } else {
                        Tool::Muxer
                    };
                    self.step = Step::Failed(Failure::NoOutput(tool));
                    None
                }
            },
        }
    }

    /// Closes the sequence after the front end carried out the finalize
    /// step. A confirmed rename replaces the source and consumes the fresh
    /// container; a confirmed delete removes the temporary one. A sequence
    /// whose both confirmations hold ends clean: the source replaced, no
    /// sibling artifact left.
    pub fn on_finalized(&mut self, renamed: bool, temp_removed: bool)
        requires
            old(self).step == Step::Finalizing,
        ensures
            final(self).name@ == old(self).name@,
            final(self).dir@ == old(self).dir@,
            final(self).step == Step::Done,
            final(self).replaced == renamed,
            final(self).fresh_present == !renamed,
            final(self).temp_present == (old(self).temp_present && !temp_removed),
    {
        self.replaced = renamed;
        self.fresh_present = !renamed;
        self.temp_present = self.temp_present && !temp_removed;
        self.step = Step::Done;
    }
}

/// Whether a failure must abort the whole run (a tool that cannot be
/// launched) rather than only skip the file (a tool that ran silent).
pub fn failure_is_fatal(f: Failure) -> (r: bool)
    ensures
        r == (f matches Failure::Launch(_)),
{
    match f {
        Failure::Launch(_) => true,
        Failure::NoOutput(_) => false,
    }
}

/// The fixed name of the transcoder's output beside the source.
pub fn temp_container_name() -> (r: &'static str)
    ensures
        r@ == "temp_file.mkv"@,
{
    "temp_file.mkv"
}

/// The fixed name of the muxer's output beside the source.
pub fn fresh_container_name() -> (r: &'static str)
    ensures
        r@ == "new_file.mkv"@,
{
    "new_file.mkv"
}

/// The preset file the transcoder reads, resolved in the working directory.
pub fn preset_file_name() -> (r: &'static str)
    ensures
        r@ == "presets.json"@,
{
    "presets.json"
}

/// The preset profile the transcoder is asked for.
pub fn preset_profile() -> (r: &'static str)
    ensures
        r@ == "Fast 1080p NVENC"@,
{
    "Fast 1080p NVENC"
}

} // verus!
