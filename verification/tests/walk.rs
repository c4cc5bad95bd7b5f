use vidconvert::fstree::{FileMeta, FsTree};
use vidconvert::walk::{select_files, SelectMode};

fn file(name: &str, codec_is_target: bool, embedded_subs: bool, sidecar_subs: bool) -> FileMeta {
    FileMeta {
        name: name.as_bytes().to_vec(),
        dir: b"/videos".to_vec(),
        codec_is_target,
        embedded_subs,
        sidecar_subs,
    }
}

fn names_of(v: &[FileMeta]) -> Vec<String> {
    v.iter().map(|m| String::from_utf8(m.name.clone()).unwrap()).collect()
}

#[test]
fn default_run_selects_only_non_target_videos() {
    // /videos holds a.mkv (not at the target codec), b.mp4 (already at it),
    // and c.txt.
    let tree = FsTree::Dir {
        entries: vec![
            FsTree::File(file("a.mkv", false, false, false)),
            FsTree::File(file("b.mp4", true, false, false)),
            FsTree::File(file("c.txt", false, false, false)),
        ],
        readable: true,
    };
    let got = select_files(&tree, SelectMode::Transcode { include_target: false }).unwrap();
    assert_eq!(names_of(&got), vec!["a.mkv"]);
}

#[test]
fn include_target_selects_every_video() {
    let tree = FsTree::Dir {
        entries: vec![
            FsTree::File(file("a.mkv", false, false, false)),
            FsTree::File(file("b.mp4", true, false, false)),
            FsTree::File(file("c.txt", false, false, false)),
        ],
        readable: true,
    };
    let got = select_files(&tree, SelectMode::Transcode { include_target: true }).unwrap();
    assert_eq!(names_of(&got), vec!["a.mkv", "b.mp4"]);
}

#[test]
fn selection_descends_into_nested_directories() {
    let tree = FsTree::Dir {
        entries: vec![
            FsTree::File(file("top.mkv", false, false, false)),
            FsTree::Dir {
                entries: vec![
                    FsTree::File(file("inner.webm", false, false, false)),
                    FsTree::Dir {
                        entries: vec![FsTree::File(file("deep.avi", true, false, false))],
                        readable: true,
                    },
                ],
                readable: true,
            },
        ],
        readable: true,
    };
    let got = select_files(&tree, SelectMode::Transcode { include_target: false }).unwrap();
    assert_eq!(names_of(&got), vec!["top.mkv", "inner.webm"]);
    let all = select_files(&tree, SelectMode::Transcode { include_target: true }).unwrap();
    assert_eq!(names_of(&all), vec!["top.mkv", "inner.webm", "deep.avi"]);
}

#[test]
fn single_file_walks_like_its_singleton_directory() {
    let f = file("only.mov", false, false, false);
    let alone = FsTree::File(f.clone());
    let dir = FsTree::Dir { entries: vec![FsTree::File(f)], readable: true };
    for mode in [
        SelectMode::Transcode { include_target: false },
        SelectMode::Transcode { include_target: true },
        SelectMode::Subtitles,
    ] {
        let a = select_files(&alone, mode).unwrap();
        let b = select_files(&dir, mode).unwrap();
        assert_eq!(names_of(&a), names_of(&b));
    }
}

#[test]
fn subtitle_mode_selects_files_lacking_all_subtitles() {
    let tree = FsTree::Dir {
        entries: vec![
            FsTree::File(file("bare.mkv", false, false, false)),
            FsTree::File(file("embedded.mkv", false, true, false)),
            FsTree::File(file("sidecar.mkv", false, false, true)),
            FsTree::File(file("notes.txt", false, false, false)),
        ],
        readable: true,
    };
    let got = select_files(&tree, SelectMode::Subtitles).unwrap();
    assert_eq!(names_of(&got), vec!["bare.mkv"]);
}

#[test]
fn missing_extension_aborts_the_walk() {
    let tree = FsTree::Dir {
        entries: vec![
            FsTree::File(file("good.mkv", false, false, false)),
            FsTree::File(file("noext", false, false, false)),
            FsTree::File(file("later.mp4", false, false, false)),
        ],
        readable: true,
    };
    let err = select_files(&tree, SelectMode::Transcode { include_target: false }).unwrap_err();
    assert_eq!(err.name, b"noext".to_vec());
    assert_eq!(err.dir, b"/videos".to_vec());
    let err2 = select_files(&tree, SelectMode::Subtitles).unwrap_err();
    assert_eq!(err2.name, b"noext".to_vec());
}

#[test]
fn unreadable_directory_yields_nothing_but_continues() {
    let tree = FsTree::Dir {
        entries: vec![
            FsTree::Dir {
                entries: vec![FsTree::File(file("noext", false, false, false))],
                readable: false,
            },
            FsTree::File(file("after.mkv", false, false, false)),
        ],
        readable: true,
    };
    let got = select_files(&tree, SelectMode::Transcode { include_target: false }).unwrap();
    assert_eq!(names_of(&got), vec!["after.mkv"]);
}

#[test]
fn transcoded_output_is_not_reselected() {
    // After a successful transcode the file probes as the target codec, so a
    // second run with default flags selects nothing: the phase is idempotent.
    let before = FsTree::Dir {
        entries: vec![FsTree::File(file("a.mkv", false, false, false))],
        readable: true,
    };
    let first = select_files(&before, SelectMode::Transcode { include_target: false }).unwrap();
    assert_eq!(names_of(&first), vec!["a.mkv"]);

    let after = FsTree::Dir {
        entries: vec![FsTree::File(file("a.mkv", true, false, false))],
        readable: true,
    };
    let second = select_files(&after, SelectMode::Transcode { include_target: false }).unwrap();
    assert!(second.is_empty());
}

#[test]
fn inaccessible_root_yields_nothing() {
    let got = select_files(&FsTree::Inaccessible, SelectMode::Subtitles).unwrap();
    assert!(got.is_empty());
}
