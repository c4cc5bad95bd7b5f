use vidconvert::fstree::FileMeta;
use vidconvert::transcode::{failure_is_fatal, fresh_container_name, preset_file_name,
    preset_profile, temp_container_name, Failure, Step, Tool, ToolOutcome, ToolRequest,
    TranscodeJob};

fn source() -> FileMeta {
    FileMeta {
        name: b"a.mkv".to_vec(),
        dir: b"/videos".to_vec(),
        codec_is_target: false,
        embedded_subs: false,
        sidecar_subs: false,
    }
}

#[test]
fn successful_sequence_replaces_source_and_leaves_no_artifacts() {
    let (mut job, first) = TranscodeJob::start(&source());
    assert_eq!(first, ToolRequest::RunTranscoder);
    assert_eq!(job.step, Step::Transcoding);

    let next = job.on_tool_outcome(ToolOutcome::Ran { produced_output: true });
    assert_eq!(next, Some(ToolRequest::RunMuxer));
    assert!(job.temp_present);

    let next = job.on_tool_outcome(ToolOutcome::Ran { produced_output: true });
    assert_eq!(next, Some(ToolRequest::Finalize));
    assert!(job.fresh_present);

    job.on_finalized(true, true);
    assert_eq!(job.step, Step::Done);
    assert!(job.replaced);
    assert!(!job.temp_present);
    assert!(!job.fresh_present);
    assert_eq!(job.name, b"a.mkv".to_vec());
}

#[test]
fn silent_transcoder_stops_the_sequence() {
    let (mut job, _) = TranscodeJob::start(&source());
    let next = job.on_tool_outcome(ToolOutcome::Ran { produced_output: false });
    assert_eq!(next, None);
    assert_eq!(job.step, Step::Failed(Failure::NoOutput(Tool::Transcoder)));
    assert!(!job.replaced);
    assert!(!failure_is_fatal(Failure::NoOutput(Tool::Transcoder)));
}

#[test]
fn silent_muxer_leaves_the_temporary_orphan() {
    let (mut job, _) = TranscodeJob::start(&source());
    job.on_tool_outcome(ToolOutcome::Ran { produced_output: true });
    let next = job.on_tool_outcome(ToolOutcome::Ran { produced_output: false });
    assert_eq!(next, None);
    assert_eq!(job.step, Step::Failed(Failure::NoOutput(Tool::Muxer)));
    assert!(job.temp_present, "the temporary container stays behind");
    assert!(!job.replaced);
}

#[test]
fn launch_failure_is_fatal() {
    let (mut job, _) = TranscodeJob::start(&source());
    let next = job.on_tool_outcome(ToolOutcome::LaunchFailed);
    assert_eq!(next, None);
    assert_eq!(job.step, Step::Failed(Failure::Launch(Tool::Transcoder)));
    assert!(failure_is_fatal(Failure::Launch(Tool::Transcoder)));
}

#[test]
fn failed_rename_keeps_the_fresh_container() {
    let (mut job, _) = TranscodeJob::start(&source());
    job.on_tool_outcome(ToolOutcome::Ran { produced_output: true });
    job.on_tool_outcome(ToolOutcome::Ran { produced_output: true });
    job.on_finalized(false, true);
    assert_eq!(job.step, Step::Done);
    assert!(!job.replaced);
    assert!(job.fresh_present);
    assert!(!job.temp_present);
}

#[test]
fn fixed_tool_arguments() {
    assert_eq!(temp_container_name(), "temp_file.mkv");
    assert_eq!(fresh_container_name(), "new_file.mkv");
    assert_eq!(preset_file_name(), "presets.json");
    assert_eq!(preset_profile(), "Fast 1080p NVENC");
}
