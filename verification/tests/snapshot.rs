use std::collections::HashMap;

use masonry_testing::snapshot::{is_switched_on, screenshots_folder};
use masonry_testing::{
    Comparison, SnapshotFile, SnapshotFiles, SnapshotOp, SnapshotReport, SnapshotSource,
};

fn on() -> Option<String> {
    Some("1".to_string())
}

/// Performs the operations of a report on a folder.
fn perform(
    report: &SnapshotReport,
    files: &SnapshotFiles,
    folder: &mut HashMap<String, u32>,
    frame: u32,
    difference: u32,
) {
    for op in &report.ops {
        match op {
            SnapshotOp::Remove(file) => {
                folder.remove(files.name_of(*file));
            }
            SnapshotOp::Save(SnapshotSource::Frame, file) => {
                folder.insert(files.name_of(*file).to_string(), frame);
            }
            SnapshotOp::Save(SnapshotSource::Difference, file) => {
                folder.insert(files.name_of(*file).to_string(), difference);
            }
        }
    }
}

#[test]
fn switches() {
    assert!(is_switched_on(&on()));
    assert!(is_switched_on(&Some("0".to_string())));
    assert!(!is_switched_on(&Some(String::new())));
    assert!(!is_switched_on(&None));
}

#[test]
fn file_names() {
    let files = SnapshotFiles::new("masonry::widget::button::tests", "hello");
    assert_eq!(files.reference, "masonry__widget__button__tests__hello.png");
    assert_eq!(files.new, "masonry__widget__button__tests__hello.new.png");
    assert_eq!(files.diff, "masonry__widget__button__tests__hello.diff.png");
    assert_eq!(files.name_of(SnapshotFile::Reference), files.reference);
    assert_eq!(files.name_of(SnapshotFile::New), files.new);
    assert_eq!(files.name_of(SnapshotFile::Diff), files.diff);
}

#[test]
fn colons_are_replaced_in_pairs() {
    for path in ["", ":", "::", ":::", "::::", "a:b::c", "::a", "a::", "a:::b", "ä::ö", "x"] {
        let files = SnapshotFiles::new(path, "t::n");
        assert_eq!(
            files.reference,
            format!("{}__t::n.png", path.replace("::", "__"))
        );
    }
}

#[test]
fn comparisons() {
    assert_eq!(Comparison::of(None), Comparison::NoReference);
    assert_eq!(
        Comparison::of(Some(Err("broken".to_string()))),
        Comparison::Unreadable("broken".to_string())
    );
    assert_eq!(Comparison::of(Some(Ok(false))), Comparison::Same);
    assert_eq!(Comparison::of(Some(Ok(true))), Comparison::Different);
}

#[test]
fn no_reference() {
    let report = SnapshotReport::new("hello", Comparison::NoReference, &None);
    assert_eq!(
        report.ops,
        vec![
            SnapshotOp::Remove(SnapshotFile::New),
            SnapshotOp::Save(SnapshotSource::Frame, SnapshotFile::New),
        ]
    );
    assert_eq!(
        report.failure,
        Some("Snapshot test 'hello' failed: No reference file".to_string())
    );
    assert_eq!(
        SnapshotReport::new("hello", Comparison::NoReference, &on()),
        report
    );
}

#[test]
fn unreadable_reference() {
    for bless in [None, on()] {
        let comparison = Comparison::Unreadable(format!("{:?}", "broken"));
        let report = SnapshotReport::new("hello", comparison, &bless);
        assert_eq!(report.ops, vec![]);
        assert_eq!(
            report.failure,
            Some("called `Result::unwrap()` on an `Err` value: \"broken\"".to_string())
        );
    }
}

#[test]
fn screenshots_are_next_to_the_test() {
    let folder = screenshots_folder("/ws", "masonry/src/widget/button.rs").unwrap();
    assert_eq!(folder, "/ws/masonry/src/widget/screenshots");
    let files = SnapshotFiles::new("masonry::widget::button::tests", "hello");
    assert_eq!(
        files.path_of(&folder, SnapshotFile::Reference),
        "/ws/masonry/src/widget/screenshots/masonry__widget__button__tests__hello.png"
    );
    assert_eq!(
        files.path_of(&folder, SnapshotFile::New),
        "/ws/masonry/src/widget/screenshots/masonry__widget__button__tests__hello.new.png"
    );
    assert_eq!(
        files.path_of(&folder, SnapshotFile::Diff),
        "/ws/masonry/src/widget/screenshots/masonry__widget__button__tests__hello.diff.png"
    );
}

#[test]
fn screenshots_of_unusual_paths() {
    assert_eq!(
        screenshots_folder("/ws", "a.rs"),
        Some("/ws/screenshots".to_string())
    );
    assert_eq!(
        screenshots_folder("ws", ".."),
        Some("ws/screenshots".to_string())
    );
    assert_eq!(
        screenshots_folder("/ws/.", "a.rs"),
        Some("/ws/screenshots".to_string())
    );
    assert_eq!(
        screenshots_folder(".", "a.rs"),
        Some("./screenshots".to_string())
    );
    assert_eq!(
        screenshots_folder("/", "a.rs"),
        Some("/screenshots".to_string())
    );
    assert_eq!(
        screenshots_folder("", "a.rs"),
        Some("screenshots".to_string())
    );
    assert_eq!(
        screenshots_folder("/ws/", "src/a.rs"),
        Some("/ws/src/screenshots".to_string())
    );
    assert_eq!(
        screenshots_folder("/ws", "/elsewhere/src/a.rs"),
        Some("/elsewhere/src/screenshots".to_string())
    );
    assert_eq!(
        screenshots_folder("/ws", "."),
        Some("/screenshots".to_string())
    );
    assert_eq!(screenshots_folder("", ""), None);
    assert_eq!(screenshots_folder("/ws", "/"), None);
}

#[test]
fn same_images() {
    let report = SnapshotReport::new("hello", Comparison::Same, &None);
    assert_eq!(
        report.ops,
        vec![
            SnapshotOp::Remove(SnapshotFile::New),
            SnapshotOp::Remove(SnapshotFile::Diff),
        ]
    );
    assert_eq!(report.failure, None);
}

#[test]
fn different_images() {
    let report = SnapshotReport::new("hello", Comparison::Different, &Some(String::new()));
    assert_eq!(
        report.ops,
        vec![
            SnapshotOp::Save(SnapshotSource::Frame, SnapshotFile::New),
            SnapshotOp::Save(SnapshotSource::Difference, SnapshotFile::Diff),
        ]
    );
    assert_eq!(
        report.failure,
        Some("Snapshot test 'hello' failed: Images are different".to_string())
    );
}

#[test]
fn blessed_images() {
    let report = SnapshotReport::new("hello", Comparison::Different, &on());
    assert_eq!(
        report.ops,
        vec![
            SnapshotOp::Remove(SnapshotFile::New),
            SnapshotOp::Remove(SnapshotFile::Diff),
            SnapshotOp::Save(SnapshotSource::Frame, SnapshotFile::Reference),
        ]
    );
    assert_eq!(report.failure, None);
}

#[test]
fn life_of_a_snapshot() {
    let files = SnapshotFiles::new("app::tests", "window");
    let other = SnapshotFiles::new("app::tests", "door");
    let mut folder: HashMap<String, u32> = HashMap::new();
    folder.insert(other.reference.clone(), 99);

    // Without a reference the frame is kept, run after run.
    for _ in 0..2 {
        let report = SnapshotReport::new("window", Comparison::NoReference, &None);
        perform(&report, &files, &mut folder, 1, 0);
        assert!(report.failure.is_some());
        assert_eq!(folder.get(&files.new), Some(&1));
        assert_eq!(folder.get(&files.reference), None);
        assert_eq!(folder.len(), 2);
    }

    // It is renamed, and matches.
    let image = folder.remove(&files.new).unwrap();
    folder.insert(files.reference.clone(), image);
    let report = SnapshotReport::new("window", Comparison::Same, &None);
    perform(&report, &files, &mut folder, 1, 0);
    assert_eq!(report.failure, None);
    assert_eq!(folder.len(), 2);

    // A different frame leaves two more files.
    let report = SnapshotReport::new("window", Comparison::Different, &None);
    perform(&report, &files, &mut folder, 2, 12);
    assert!(report.failure.is_some());
    assert_eq!(folder.get(&files.reference), Some(&1));
    assert_eq!(folder.get(&files.new), Some(&2));
    assert_eq!(folder.get(&files.diff), Some(&12));
    assert_eq!(folder.len(), 4);

    // A match removes them.
    let mut cleared = folder.clone();
    let report = SnapshotReport::new("window", Comparison::Same, &None);
    perform(&report, &files, &mut cleared, 1, 0);
    assert_eq!(cleared.get(&files.reference), Some(&1));
    assert_eq!(cleared.len(), 2);

    // So does a blessing, which moves the reference.
    let report = SnapshotReport::new("window", Comparison::Different, &on());
    perform(&report, &files, &mut folder, 2, 12);
    assert_eq!(folder.get(&files.reference), Some(&2));
    assert_eq!(folder.get(&other.reference), Some(&99));
    assert_eq!(folder.len(), 2);
}
