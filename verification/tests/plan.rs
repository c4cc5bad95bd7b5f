use vidconvert::fstree::{FileMeta, FsTree};
use vidconvert::run::{plan_run, subtitle_request, RunConfig};

fn file(name: &str, codec_is_target: bool, embedded_subs: bool, sidecar_subs: bool) -> FileMeta {
    FileMeta {
        name: name.as_bytes().to_vec(),
        dir: b"/videos".to_vec(),
        codec_is_target,
        embedded_subs,
        sidecar_subs,
    }
}

fn config() -> RunConfig {
    RunConfig {
        debug: false,
        dry_run: false,
        include_h264: false,
        no_transcode: false,
        gen_subs: false,
    }
}

#[test]
fn dry_run_with_gen_subs_reports_and_dispatches_nothing() {
    // One file lacking subtitles in any form, one with a sidecar .srt.
    let tree = FsTree::Dir {
        entries: vec![
            FsTree::File(file("bare.mkv", false, false, false)),
            FsTree::File(file("covered.mkv", false, false, true)),
        ],
        readable: true,
    };
    let cfg = RunConfig { dry_run: true, gen_subs: true, ..config() };
    let plan = plan_run(&cfg, &tree).unwrap();
    assert!(!plan.dispatch);
    let subs = plan.subtitles.expect("subtitle phase is on");
    assert_eq!(subs.len(), 1);
    assert_eq!(subs[0].name, b"bare.mkv".to_vec());
}

#[test]
fn no_transcode_switches_the_phase_off() {
    let tree = FsTree::Dir {
        entries: vec![FsTree::File(file("a.mkv", false, false, false))],
        readable: true,
    };
    let cfg = RunConfig { no_transcode: true, ..config() };
    let plan = plan_run(&cfg, &tree).unwrap();
    assert!(plan.transcode.is_none());
    assert!(plan.subtitles.is_none());
    assert!(plan.dispatch);
}

#[test]
fn live_run_selects_for_both_phases() {
    let tree = FsTree::Dir {
        entries: vec![
            FsTree::File(file("a.mkv", false, true, false)),
            FsTree::File(file("b.mp4", true, false, false)),
        ],
        readable: true,
    };
    let cfg = RunConfig { gen_subs: true, ..config() };
    let plan = plan_run(&cfg, &tree).unwrap();
    assert!(plan.dispatch);
    let transcode = plan.transcode.expect("transcode phase is on");
    assert_eq!(transcode.len(), 1);
    assert_eq!(transcode[0].name, b"a.mkv".to_vec());
    let subs = plan.subtitles.expect("subtitle phase is on");
    assert_eq!(subs.len(), 1);
    assert_eq!(subs[0].name, b"b.mp4".to_vec());
}

#[test]
fn plan_propagates_the_missing_extension_error() {
    let tree = FsTree::Dir {
        entries: vec![FsTree::File(file("noext", false, false, false))],
        readable: true,
    };
    let err = plan_run(&config(), &tree).unwrap_err();
    assert_eq!(err.name, b"noext".to_vec());
    assert_eq!(err.dir, b"/videos".to_vec());
}

#[test]
fn subtitle_request_targets_the_files_own_directory() {
    let f = file("bare.mkv", false, false, false);
    let req = subtitle_request(&f);
    assert_eq!(req.input_name, b"bare.mkv".to_vec());
    assert_eq!(req.output_dir, b"/videos".to_vec());
}
