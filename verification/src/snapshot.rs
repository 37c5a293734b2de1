//! What becomes of the files of a snapshot test.
//!
//! Each test has three files in the `screenshots` folder next to its source:
//! the reference image that frames are held against, the newest frame that did
//! not match, and a picture of how that frame differs from the reference.

use vstd::prelude::*;
use vstd::string::{StrSliceExecFns, StringExecFns};

use crate::paths::{
    is_directly_in, is_entry, is_joined, is_relative, is_separator, join, lies_directly_in, parent,
    takes_a_separator,
};

verus! {

/// A variable of the environment acts as a switch: it is on if it has a value
/// other than the empty one.
pub open spec fn switched_on(variable: Option<String>) -> bool {
    variable matches Some(value) && value@.len() > 0
}

/// Whether the variable has a value other than the empty one.
pub fn is_switched_on(variable: &Option<String>) -> (on: bool)
    ensures
        on == switched_on(*variable),
{
    match variable {
        Some(value) => !value.as_str().is_empty(),
        None => false,
    }
}

/// A text with every `::` turned into `__`, from left to right.
pub open spec fn colons_replaced(text: Seq<char>) -> Seq<char>
    decreases text.len(),
{
    if text.len() < 2 {
        text
    } else if text[0] == ':' && text[1] == ':' {
        "__"@ + colons_replaced(text.skip(2))
    } else {
        seq![text[0]] + colons_replaced(text.skip(1))
    }
}

/// Turns every `::` into `__`.
fn replace_colons(text: &str) -> (result: String)
    ensures
        result@ == colons_replaced(text@),
{
    let length: usize = text.unicode_len();
    let mut result = String::new();
    let mut i: usize = 0;
    proof {
        assert(text@.skip(0) == text@);
    }
    while i < length
        invariant
            i <= length,
            length == text@.len(),
            result@ + colons_replaced(text@.skip(i as int)) == colons_replaced(text@),
        decreases length - i,
    {
        let ghost rest = text@.skip(i as int);
        if length - i >= 2 && text.get_char(i) == ':' && text.get_char(i + 1) == ':' {
            proof {
                assert(rest.skip(2) == text@.skip(i + 2));
            }
            result.append("__");
            i = i + 2;
        } else {
            proof {
                assert(rest.skip(1) == text@.skip(i + 1));
                assert(text@.subrange(i as int, i + 1) == seq![rest[0]]);
                if rest.len() == 1 {
                    assert(rest == seq![rest[0]]);
                    assert(rest.skip(1) == Seq::<char>::empty());
                }
            }
            result.append(text.substring_char(i, i + 1));
            i = i + 1;
        }
    }
    proof {
        assert(text@.skip(length as int) == Seq::<char>::empty());
    }
    result
}

/// The folder is the `screenshots` folder in a folder of the workspace, or in the
/// workspace itself where no folder is given, whatever the platform separates the
/// parts of a path by.
pub open spec fn is_screenshots_folder(
    folder: Seq<char>,
    workspace: Seq<char>,
    test_folder: Seq<char>,
) -> bool {
    if test_folder.len() == 0 {
        is_joined(folder, workspace, "screenshots"@)
    } else {
        let first = workspace.len() as int;
        let second = first + 1 + test_folder.len();
        &&& folder == workspace + seq![folder[first]] + test_folder + seq![folder[second]]
            + "screenshots"@
        &&& is_separator(folder[first])
        &&& is_separator(folder[second])
    }
}

/// The folder for the images of a test: the `screenshots` folder next to the file
/// that the test is in. That file is given by its path in the workspace.
///
/// For a file directly in the workspace that is the folder in the workspace itself.
/// There is none where the path leads to no entry of a folder.
pub fn screenshots_folder(workspace: &str, test_file_path: &str) -> (folder: Option<String>)
    ensures
        forall|test_folder: Seq<char>, name: Seq<char>| #[trigger]
            is_entry(test_file_path@, test_folder, name) && takes_a_separator(workspace@)
                && is_relative(test_file_path@) ==> (folder matches Some(text)
                && is_screenshots_folder(text@, workspace@, test_folder)),
        lies_directly_in(test_file_path@, workspace@) ==> (folder matches Some(text)
            && is_screenshots_folder(text@, workspace@, Seq::empty())),
{
    if is_directly_in(test_file_path, workspace) {
        proof {
            reveal_strlit("screenshots");
            assert forall|test_folder: Seq<char>, name: Seq<char>|
                !#[trigger] is_entry(test_file_path@, test_folder, name) by {
                if is_entry(test_file_path@, test_folder, name) {
                    assert(is_separator(test_file_path@[test_folder.len() as int]));
                }
            }
        }
        return Some(join(workspace, "screenshots"));
    }
    let test_file_path_abs = join(workspace, test_file_path);
    proof {
        assert forall|test_folder: Seq<char>, name: Seq<char>| #[trigger]
            is_entry(test_file_path@, test_folder, name) && takes_a_separator(workspace@)
                && is_relative(test_file_path@) implies is_entry(
            test_file_path_abs@,
            workspace@ + seq![test_file_path_abs@[workspace@.len() as int]] + test_folder,
            name,
        ) by {
            lemma_entry_of_the_workspace(
                test_file_path_abs@,
                workspace@,
                test_file_path@,
                test_folder,
                name,
            );
        }
        reveal_strlit("screenshots");
    }
    match parent(test_file_path_abs.as_str()) {
        None => None,
        Some(folder_path) => Some(join(folder_path.as_str(), "screenshots")),
    }
}

/// A file of a folder in the workspace is, by its absolute path, a file of the
/// absolute path of that folder.
proof fn lemma_entry_of_the_workspace(
    absolute: Seq<char>,
    workspace: Seq<char>,
    path: Seq<char>,
    folder: Seq<char>,
    name: Seq<char>,
)
    requires
        takes_a_separator(workspace),
        is_relative(path),
        is_entry(path, folder, name),
        is_joined(absolute, workspace, path),
    ensures
        is_entry(
            absolute,
            workspace + seq![absolute[workspace.len() as int]] + folder,
            name,
        ),
{
    let start = workspace + seq![absolute[workspace.len() as int]] + folder;
    assert(absolute == start + seq!['/'] + name);
    assert(path[0] == folder[0]);
    assert(start.last() == folder.last());
    assert(start[0] == workspace[0]);
    if workspace.len() > 1 {
        assert(start[1] == workspace[1]);
    }
}

/// One of the files of a snapshot test.
#[derive(Clone, Copy, Debug, PartialEq, Eq, Structural)]
pub enum SnapshotFile {
    /// The image that frames are held against.
    Reference,
    /// The newest frame that did not match.
    New,
    /// How that frame differs from the reference.
    Diff,
}

/// The names of the files of a snapshot test.
#[derive(Debug, PartialEq)]
pub struct SnapshotFiles {
    pub reference: String,
    pub new: String,
    pub diff: String,
}

impl SnapshotFiles {
    /// What the names of the files of a test begin with.
    pub open spec fn stem(test_module_path: Seq<char>, test_name: Seq<char>) -> Seq<char> {
        colons_replaced(test_module_path) + "__"@ + test_name
    }

    /// The name of a file.
    pub open spec fn name(self, file: SnapshotFile) -> Seq<char> {
        match file {
            SnapshotFile::Reference => self.reference@,
            SnapshotFile::New => self.new@,
            SnapshotFile::Diff => self.diff@,
        }
    }

    /// The names are those of the test.
    pub open spec fn belong_to(
        self,
        test_module_path: Seq<char>,
        test_name: Seq<char>,
    ) -> bool {
        &&& self.reference@ == Self::stem(test_module_path, test_name) + ".png"@
        &&& self.new@ == Self::stem(test_module_path, test_name) + ".new.png"@
        &&& self.diff@ == Self::stem(test_module_path, test_name) + ".diff.png"@
    }

    /// Names the files of a test after the path of its module and its own name.
    pub fn new(test_module_path: &str, test_name: &str) -> (files: Self)
        ensures
            files.belong_to(test_module_path@, test_name@),
    {
        let stem = replace_colons(test_module_path).concat("__").concat(test_name);
        SnapshotFiles {
            reference: stem.clone().concat(".png"),
            new: stem.clone().concat(".new.png"),
            diff: stem.concat(".diff.png"),
        }
    }

    /// The name of a file.
    pub fn name_of(&self, file: SnapshotFile) -> (name: &str)
        ensures
            name@ == self.name(file),
    {
        match file {
            SnapshotFile::Reference => self.reference.as_str(),
            SnapshotFile::New => self.new.as_str(),
            SnapshotFile::Diff => self.diff.as_str(),
        }
    }

    /// The path of a file in the folder for the images of the test.
    pub fn path_of(&self, folder: &str, file: SnapshotFile) -> (path: String)
        ensures
            takes_a_separator(folder@) && is_relative(self.name(file)) ==> is_joined(
                path@,
                folder@,
                self.name(file),
            ),
    {
        join(folder, self.name_of(file))
    }
}

/// What a snapshot test starts with.
#[derive(Debug, PartialEq)]
pub enum SnapshotStep {
    /// Leave it at painting the window.
    Skip,
    /// Render the window and hold the frame against the reference.
    Compare(SnapshotFiles),
}

/// How a frame compares to the reference image.
#[derive(Debug, PartialEq, Eq)]
pub enum Comparison {
    /// There is no reference image.
    NoReference,
    /// There is a file for the reference, but no image can be decoded from it: the
    /// error, in its debug form.
    Unreadable(String),
    /// The images are the same.
    Same,
    /// The images are different.
    Different,
}

impl Comparison {
    /// How a frame compares, where `differs` tells whether it differs from the
    /// image in the file for the reference, if there is such a file and an image
    /// can be decoded from it.
    pub fn of(differs: Option<Result<bool, String>>) -> (comparison: Self)
        ensures
            comparison == (match differs {
                None => Comparison::NoReference,
                Some(Err(error)) => Comparison::Unreadable(error),
                Some(Ok(false)) => Comparison::Same,
                Some(Ok(true)) => Comparison::Different,
            }),
    {
        match differs {
            None => Comparison::NoReference,
            Some(Err(error)) => Comparison::Unreadable(error),
            Some(Ok(differs)) => if differs {
                Comparison::Different
            } else {
                Comparison::Same
            },
        }
    }
}

/// An image to be written to a file.
#[derive(Clone, Copy, Debug, PartialEq, Eq, Structural)]
pub enum SnapshotSource {
    /// The frame that was rendered.
    Frame,
    /// The picture of the difference.
    Difference,
}

/// Something to be done to a file.
#[derive(Clone, Copy, Debug, PartialEq, Eq, Structural)]
pub enum SnapshotOp {
    /// Remove the file, if there is one.
    Remove(SnapshotFile),
    /// Write an image to the file, in place of what it held.
    Save(SnapshotSource, SnapshotFile),
}

/// How a snapshot test ends.
#[derive(Debug, PartialEq)]
pub struct SnapshotReport {
    /// What is to be done to the files, in this order.
    pub ops: Vec<SnapshotOp>,
    /// Why the test fails, if it does.
    pub failure: Option<String>,
}

/// Whether a snapshot test passes. To bless a frame is to accept it as the new
/// reference.
pub open spec fn passes(comparison: Comparison, bless: bool) -> bool {
    match comparison {
        Comparison::NoReference => false,
        Comparison::Unreadable(_) => false,
        Comparison::Same => true,
        Comparison::Different => bless,
    }
}

/// What a snapshot test does to its files.
pub open spec fn file_ops(comparison: Comparison, bless: bool) -> Seq<SnapshotOp> {
    match comparison {
        Comparison::NoReference => seq![
            SnapshotOp::Remove(SnapshotFile::New),
            SnapshotOp::Save(SnapshotSource::Frame, SnapshotFile::New),
        ],
        Comparison::Unreadable(_) => seq![],
        Comparison::Same => seq![
            SnapshotOp::Remove(SnapshotFile::New),
            SnapshotOp::Remove(SnapshotFile::Diff),
        ],
        Comparison::Different => if bless {
            seq![
                SnapshotOp::Remove(SnapshotFile::New),
                SnapshotOp::Remove(SnapshotFile::Diff),
                SnapshotOp::Save(SnapshotSource::Frame, SnapshotFile::Reference),
            ]
        } else {
            seq![
                SnapshotOp::Save(SnapshotSource::Frame, SnapshotFile::New),
                SnapshotOp::Save(SnapshotSource::Difference, SnapshotFile::Diff),
            ]
        },
    }
}

/// The words with which a snapshot test fails. Where the reference cannot be
/// decoded, they are those of unwrapping the error.
pub open spec fn failure_text(comparison: Comparison, test_name: Seq<char>) -> Seq<char> {
    match comparison {
        Comparison::Unreadable(error) => "called `Result::unwrap()` on an `Err` value: "@ + error@,
        Comparison::NoReference => "Snapshot test '"@ + test_name + "' failed: No reference file"@,
        _ => "Snapshot test '"@ + test_name + "' failed: Images are different"@,
    }
}

impl SnapshotReport {
    /// Decides how the test ends, where `bless` is the variable that tells
    /// whether frames are accepted as references.
    pub fn new(test_name: &str, comparison: Comparison, bless: &Option<String>) -> (report: Self)
        ensures
            report.ops@ == file_ops(comparison, switched_on(*bless)),
            report.failure is None <==> passes(comparison, switched_on(*bless)),
            report.failure matches Some(text) ==> text@ == failure_text(comparison, test_name@),
    {
        let mut ops: Vec<SnapshotOp> = Vec::new();
        match comparison {
            Comparison::NoReference => {
                ops.push(SnapshotOp::Remove(SnapshotFile::New));
                ops.push(SnapshotOp::Save(SnapshotSource::Frame, SnapshotFile::New));
                let failure = "Snapshot test '".to_owned().concat(test_name).concat(
                    "' failed: No reference file",
                );
                SnapshotReport { ops, failure: Some(failure) }
            },
            Comparison::Unreadable(error) => {
                let failure = "called `Result::unwrap()` on an `Err` value: ".to_owned().concat(
                    error.as_str(),
                );
                SnapshotReport { ops, failure: Some(failure) }
            },
            Comparison::Same => {
                ops.push(SnapshotOp::Remove(SnapshotFile::New));
                ops.push(SnapshotOp::Remove(SnapshotFile::Diff));
                SnapshotReport { ops, failure: None }
            },
            Comparison::Different => {
                if is_switched_on(bless) {
                    ops.push(SnapshotOp::Remove(SnapshotFile::New));
                    ops.push(SnapshotOp::Remove(SnapshotFile::Diff));
                    ops.push(SnapshotOp::Save(SnapshotSource::Frame, SnapshotFile::Reference));
                    SnapshotReport { ops, failure: None }
                } else {
                    ops.push(SnapshotOp::Save(SnapshotSource::Frame, SnapshotFile::New));
                    ops.push(SnapshotOp::Save(SnapshotSource::Difference, SnapshotFile::Diff));
                    let failure = "Snapshot test '".to_owned().concat(test_name).concat(
                        "' failed: Images are different",
                    );
                    SnapshotReport { ops, failure: Some(failure) }
                }
            },
        }
    }
}

/// A folder of images, by file name, after an operation.
pub open spec fn folder_after_op<I>(
    op: SnapshotOp,
    files: SnapshotFiles,
    folder: Map<Seq<char>, I>,
    frame: I,
    difference: I,
) -> Map<Seq<char>, I> {
    match op {
        SnapshotOp::Remove(file) => folder.remove(files.name(file)),
        SnapshotOp::Save(SnapshotSource::Frame, file) => folder.insert(files.name(file), frame),
        SnapshotOp::Save(SnapshotSource::Difference, file) => folder.insert(
            files.name(file),
            difference,
        ),
    }
}

/// A folder of images after a series of operations.
pub open spec fn folder_after<I>(
    ops: Seq<SnapshotOp>,
    files: SnapshotFiles,
    folder: Map<Seq<char>, I>,
    frame: I,
    difference: I,
) -> Map<Seq<char>, I>
    decreases ops.len(),
{
    if ops.len() == 0 {
        folder
    } else {
        folder_after(
            ops.drop_first(),
            files,
            folder_after_op(ops[0], files, folder, frame, difference),
            frame,
            difference,
        )
    }
}

/// The three files of a snapshot test have different names.
pub proof fn law_snapshot_files_are_distinct(
    files: SnapshotFiles,
    test_module_path: Seq<char>,
    test_name: Seq<char>,
)
    requires
        files.belong_to(test_module_path, test_name),
    ensures
        files.reference@ != files.new@,
        files.reference@ != files.diff@,
        files.new@ != files.diff@,
{
    reveal_strlit(".png");
    reveal_strlit(".new.png");
    reveal_strlit(".diff.png");
    assert(files.reference@.len() != files.new@.len());
    assert(files.reference@.len() != files.diff@.len());
    assert(files.new@.len() != files.diff@.len());
}

/// Two snapshots of one module with different names have different reference
/// files.
pub proof fn law_snapshots_do_not_share_a_reference(
    a: SnapshotFiles,
    b: SnapshotFiles,
    test_module_path: Seq<char>,
    name_a: Seq<char>,
    name_b: Seq<char>,
)
    requires
        a.belong_to(test_module_path, name_a),
        b.belong_to(test_module_path, name_b),
        name_a != name_b,
    ensures
        a.reference@ != b.reference@,
{
    reveal_strlit(".png");
    let prefix = colons_replaced(test_module_path) + "__"@;
    if a.reference@ == b.reference@ {
        let end_a = a.reference@.len() - ".png"@.len();
        assert(a.reference@.subrange(prefix.len() as int, end_a) == name_a);
        assert(b.reference@.subrange(prefix.len() as int, end_a) == name_b);
    }
}

/// What a snapshot test leaves in its folder.
///
/// * Where there is no reference, the frame is kept as the new image; nothing
///   else changes, so the test goes on failing until the file is renamed.
/// * Where no image can be decoded from the reference, nothing changes.
/// * Where the frame matches, the reference stays and the other two files of the
///   test are gone.
/// * Where it does not match, the reference stays, the frame is kept as the new
///   image and the difference in the third file.
/// * Where it does not match but is blessed, it becomes the reference, and the
///   other two files of the test are gone.
///
/// No other file is touched.
pub proof fn law_snapshot_folder<I>(
    files: SnapshotFiles,
    test_module_path: Seq<char>,
    test_name: Seq<char>,
    comparison: Comparison,
    bless: bool,
    folder: Map<Seq<char>, I>,
    frame: I,
    difference: I,
)
    requires
        files.belong_to(test_module_path, test_name),
    ensures
        ({
            let after = folder_after(
                file_ops(comparison, bless),
                files,
                folder,
                frame,
                difference,
            );
            match comparison {
                Comparison::NoReference => after == folder.insert(files.new@, frame),
                Comparison::Unreadable(_) => after == folder,
                Comparison::Same => after == folder.remove(files.new@).remove(files.diff@),
                Comparison::Different => if bless {
                    after == folder.insert(files.reference@, frame).remove(files.new@).remove(
                        files.diff@,
                    )
                } else {
                    after == folder.insert(files.new@, frame).insert(files.diff@, difference)
                },
            }
        }),
{
    law_snapshot_files_are_distinct(files, test_module_path, test_name);
    reveal_with_fuel(folder_after, 4);
    let after = folder_after(
        file_ops(comparison, bless),
        files,
        folder,
        frame,
        difference,
    );
    match comparison {
        Comparison::NoReference => {
            assert(after =~= folder.insert(files.new@, frame));
        },
        Comparison::Unreadable(_) => {},
        Comparison::Same => {
            assert(after =~= folder.remove(files.new@).remove(files.diff@));
        },
        Comparison::Different => {
            if bless {
                assert(after =~= folder.insert(files.reference@, frame).remove(
                    files.new@,
                ).remove(files.diff@));
            } else {
                assert(after =~= folder.insert(files.new@, frame).insert(
                    files.diff@,
                    difference,
                ));
            }
        },
    }
}

/// A test that is run again on the same frame, with the same outcome, leaves the
/// folder as the first run left it.
pub proof fn law_snapshot_runs_settle<I>(
    files: SnapshotFiles,
    test_module_path: Seq<char>,
    test_name: Seq<char>,
    comparison: Comparison,
    bless: bool,
    folder: Map<Seq<char>, I>,
    frame: I,
    difference: I,
)
    requires
        files.belong_to(test_module_path, test_name),
    ensures
        ({
            let ops = file_ops(comparison, bless);
            let once = folder_after(ops, files, folder, frame, difference);
            folder_after(ops, files, once, frame, difference) == once
        }),
{
    let ops = file_ops(comparison, bless);
    let once = folder_after(ops, files, folder, frame, difference);
    law_snapshot_files_are_distinct(files, test_module_path, test_name);
    law_snapshot_folder(
        files,
        test_module_path,
        test_name,
        comparison,
        bless,
        folder,
        frame,
        difference,
    );
    law_snapshot_folder(
        files,
        test_module_path,
        test_name,
        comparison,
        bless,
        once,
        frame,
        difference,
    );
    assert(folder_after(ops, files, once, frame, difference) =~= once);
}

/// When a test that failed is run again and the frame matches, no trace of the
/// failure is left: the folder is as if the frame had matched at once.
pub proof fn law_a_match_clears_a_failure<I>(
    files: SnapshotFiles,
    test_module_path: Seq<char>,
    test_name: Seq<char>,
    folder: Map<Seq<char>, I>,
    failed_frame: I,
    difference: I,
    frame: I,
)
    requires
        files.belong_to(test_module_path, test_name),
    ensures
        ({
            let failure = file_ops(Comparison::Different, false);
            let success = file_ops(Comparison::Same, false);
            let failed = folder_after(
                failure,
                files,
                folder,
                failed_frame,
                difference,
            );
            &&& folder_after(success, files, failed, frame, difference)
                == folder_after(success, files, folder, frame, difference)
        }),
{
    let failure = file_ops(Comparison::Different, false);
    let success = file_ops(Comparison::Same, false);
    let failed = folder_after(failure, files, folder, failed_frame, difference);
    law_snapshot_files_are_distinct(files, test_module_path, test_name);
    law_snapshot_folder(
        files,
        test_module_path,
        test_name,
        Comparison::Different,
        false,
        folder,
        failed_frame,
        difference,
    );
    law_snapshot_folder(
        files,
        test_module_path,
        test_name,
        Comparison::Same,
        false,
        failed,
        frame,
        difference,
    );
    law_snapshot_folder(
        files,
        test_module_path,
        test_name,
        Comparison::Same,
        false,
        folder,
        frame,
        difference,
    );
    assert(folder_after(success, files, failed, frame, difference)
        =~= folder_after(success, files, folder, frame, difference));
}

/// A test without a reference never makes one: it fails again and again, until
/// the new image is renamed to be the reference.
pub proof fn law_a_reference_is_not_made_up<I>(
    files: SnapshotFiles,
    test_module_path: Seq<char>,
    test_name: Seq<char>,
    bless: bool,
    folder: Map<Seq<char>, I>,
    frame: I,
    difference: I,
)
    requires
        files.belong_to(test_module_path, test_name),
        !folder.contains_key(files.reference@),
    ensures
        !passes(Comparison::NoReference, bless),
        ({
            let after = folder_after(
                file_ops(Comparison::NoReference, bless),
                files,
                folder,
                frame,
                difference,
            );
            &&& !after.contains_key(files.reference@)
            &&& after.contains_key(files.new@)
            &&& after[files.new@] == frame
        }),
{
    law_snapshot_files_are_distinct(files, test_module_path, test_name);
    law_snapshot_folder(
        files,
        test_module_path,
        test_name,
        Comparison::NoReference,
        bless,
        folder,
        frame,
        difference,
    );
}

/// A reference that cannot be read is never overwritten: the test fails, blessed
/// or not, and no file is touched.
pub proof fn law_an_unreadable_reference_is_kept<I>(
    files: SnapshotFiles,
    error: String,
    bless: bool,
    folder: Map<Seq<char>, I>,
    frame: I,
    difference: I,
)
    ensures
        !passes(Comparison::Unreadable(error), bless),
        folder_after(
            file_ops(Comparison::Unreadable(error), bless),
            files,
            folder,
            frame,
            difference,
        ) == folder,
{
}

/// The reference image of a test is the file `screenshots/<module>__<name>.png`
/// next to the file that the test is in.
pub proof fn law_the_reference_is_next_to_the_test(
    files: SnapshotFiles,
    test_module_path: Seq<char>,
    test_name: Seq<char>,
    workspace: Seq<char>,
    test_folder: Seq<char>,
    folder: Seq<char>,
    path: Seq<char>,
)
    requires
        files.belong_to(test_module_path, test_name),
        takes_a_separator(workspace),
        is_screenshots_folder(folder, workspace, test_folder),
        takes_a_separator(folder) && is_relative(files.reference@) ==> is_joined(
            path,
            folder,
            files.reference@,
        ),
        is_relative(files.reference@),
        test_folder.len() > 0 ==> !is_separator(test_folder[0]),
    ensures
        is_separator(path[folder.len() as int]),
        path == folder + seq![path[folder.len() as int]] + colons_replaced(test_module_path)
            + "__"@ + test_name + ".png"@,
{
    reveal_strlit("screenshots");
    assert(folder.last() == 's');
    assert(folder[0] == workspace[0]);
    if workspace.len() > 1 {
        assert(folder[1] == workspace[1]);
    }
    assert(path == folder + seq![path[folder.len() as int]] + files.reference@);
}

/// A variable that is not set, or is set to nothing, is off; any other is on.
pub proof fn law_switches(variable: Option<String>)
    ensures
        variable is None ==> !switched_on(variable),
        variable matches Some(value) ==> (!switched_on(variable) <==> value@.len() == 0),
{
}

/// A text without a pair of colons stays as it is.
pub proof fn law_other_text_is_kept(text: Seq<char>)
    requires
        forall|i: int| 0 <= i < text.len() - 1 && #[trigger] text[i] == ':' ==> text[i + 1] != ':',
    ensures
        colons_replaced(text) == text,
    decreases text.len(),
{
    if text.len() >= 2 {
        let rest = text.skip(1);
        assert(text[0] != ':' || text[0int + 1] != ':');
        assert forall|i: int| 0 <= i < rest.len() - 1 && #[trigger] rest[i] == ':' implies rest[i
            + 1] != ':' by {
            assert(rest[i] == text[i + 1]);
        }
        law_other_text_is_kept(rest);
        assert(seq![text[0]] + rest == text);
    }
}

/// The first pair of colons becomes two underscores. What is before it stays, and
/// in what is behind it pairs are replaced likewise.
pub proof fn law_the_first_pair_is_replaced(text: Seq<char>, k: int)
    requires
        0 <= k < text.len() - 1,
        text[k] == ':',
        text[k + 1] == ':',
        forall|i: int| 0 <= i < k && #[trigger] text[i] == ':' ==> text[i + 1] != ':',
    ensures
        colons_replaced(text) == text.take(k) + seq!['_', '_'] + colons_replaced(
            text.skip(k + 2),
        ),
    decreases k,
{
    reveal_strlit("__");
    assert("__"@ =~= seq!['_', '_']);
    if k == 0 {
        assert(text.take(0) + seq!['_', '_'] == seq!['_', '_']);
    } else {
        let rest = text.skip(1);
        assert(text[0] != ':' || text[0int + 1] != ':');
        assert forall|i: int| 0 <= i < k - 1 && #[trigger] rest[i] == ':' implies rest[i + 1]
            != ':' by {
            assert(rest[i] == text[i + 1]);
        }
        law_the_first_pair_is_replaced(rest, k - 1);
        assert(rest.skip(k + 1) == text.skip(k + 2));
        assert(seq![text[0]] + rest.take(k - 1) == text.take(k));
        assert(colons_replaced(text) =~= text.take(k) + seq!['_', '_'] + colons_replaced(
            text.skip(k + 2),
        ));
    }
}

/// The files of a test are named after its module, with two underscores for each
/// pair of colons, and after its own name. They differ in their endings.
pub proof fn law_file_names(
    files: SnapshotFiles,
    test_module_path: Seq<char>,
    test_name: Seq<char>,
)
    ensures
        files.belong_to(test_module_path, test_name) <==> ({
            let stem = colons_replaced(test_module_path) + seq!['_', '_'] + test_name;
            &&& files.reference@ == stem + seq!['.', 'p', 'n', 'g']
            &&& files.new@ == stem + seq!['.', 'n', 'e', 'w', '.', 'p', 'n', 'g']
            &&& files.diff@ == stem + seq!['.', 'd', 'i', 'f', 'f', '.', 'p', 'n', 'g']
        }),
        files.name(SnapshotFile::Reference) == files.reference@,
        files.name(SnapshotFile::New) == files.new@,
        files.name(SnapshotFile::Diff) == files.diff@,
{
    reveal_strlit("__");
    reveal_strlit(".png");
    reveal_strlit(".new.png");
    reveal_strlit(".diff.png");
    assert("__"@ =~= seq!['_', '_']);
    assert(".png"@ =~= seq!['.', 'p', 'n', 'g']);
    assert(".new.png"@ =~= seq!['.', 'n', 'e', 'w', '.', 'p', 'n', 'g']);
    assert(".diff.png"@ =~= seq!['.', 'd', 'i', 'f', 'f', '.', 'p', 'n', 'g']);
}

/// The folder for the images of a test is the folder `screenshots` in the folder of
/// the test, which is in the workspace or is the workspace itself.
pub proof fn law_where_screenshots_are(
    folder: Seq<char>,
    workspace: Seq<char>,
    test_folder: Seq<char>,
)
    ensures
        test_folder.len() == 0 ==> (is_screenshots_folder(folder, workspace, test_folder)
            <==> is_joined(folder, workspace, "screenshots"@)),
        test_folder.len() > 0 ==> (is_screenshots_folder(folder, workspace, test_folder) <==> exists|
            absolute: Seq<char>,
        | #[trigger]
            is_joined(absolute, workspace, test_folder) && is_joined(
                folder,
                absolute,
                "screenshots"@,
            )),
{
    if test_folder.len() > 0 {
        if is_screenshots_folder(folder, workspace, test_folder) {
            let absolute = workspace + seq![folder[workspace.len() as int]] + test_folder;
            assert(absolute[workspace.len() as int] == folder[workspace.len() as int]);
            assert(is_joined(absolute, workspace, test_folder));
            assert(folder =~= absolute + seq![folder[absolute.len() as int]] + "screenshots"@);
            assert(is_joined(folder, absolute, "screenshots"@));
        }
        assert forall|absolute: Seq<char>| #[trigger]
            is_joined(absolute, workspace, test_folder) && is_joined(
                folder,
                absolute,
                "screenshots"@,
            ) implies is_screenshots_folder(folder, workspace, test_folder) by {
            assert(folder[workspace.len() as int] == absolute[workspace.len() as int]);
            assert(absolute.len() == workspace.len() + 1 + test_folder.len());
        }
    }
}

/// A frame that is the same as its reference passes, blessed or not. A different
/// one passes exactly if it is blessed. Without a reference that can be read, no
/// frame passes.
pub proof fn law_which_frames_pass(comparison: Comparison, bless: bool)
    ensures
        comparison is Same ==> passes(comparison, bless),
        comparison is Different ==> (passes(comparison, bless) <==> bless),
        comparison is NoReference ==> !passes(comparison, bless),
        comparison is Unreadable ==> !passes(comparison, bless),
{
}

/// The words of a failure name the test and say what is wrong, or give the error of
/// a reference that cannot be decoded.
pub proof fn law_failures_in_words(test_name: Seq<char>, error: String)
    ensures
        failure_text(Comparison::NoReference, test_name) == "Snapshot test '"@ + test_name
            + "' failed: No reference file"@,
        failure_text(Comparison::Different, test_name) == "Snapshot test '"@ + test_name
            + "' failed: Images are different"@,
        failure_text(Comparison::Unreadable(error), test_name)
            == "called `Result::unwrap()` on an `Err` value: "@ + error@,
{
}

/// What is done to the files of a test.
///
/// * The reference is written only with a different frame that is blessed, and is
///   never removed.
/// * The frame is kept as the new image where there is no reference, and where it
///   differs and is not blessed. It is then that the difference is kept, if there
///   is a reference to differ from.
/// * A test that passes removes both of these, and one without a reference what was
///   left of the new image.
/// * Each of these is done once, and no file is removed after it was written.
pub proof fn law_what_is_done_to_files(comparison: Comparison, bless: bool)
    ensures
        ({
            let ops = file_ops(comparison, bless);
            let blessed = comparison is Different && bless;
            let failed = comparison is Different && !bless;
            let missing = comparison is NoReference;
            let same = comparison is Same;
            &&& forall|op: SnapshotOp|
                #![trigger ops.contains(op)]
                ops.contains(op) <==> (match op {
                    SnapshotOp::Save(SnapshotSource::Frame, SnapshotFile::Reference) => blessed,
                    SnapshotOp::Save(SnapshotSource::Frame, SnapshotFile::New) => missing
                        || failed,
                    SnapshotOp::Save(SnapshotSource::Difference, SnapshotFile::Diff) => failed,
                    SnapshotOp::Remove(SnapshotFile::New) => missing || same || blessed,
                    SnapshotOp::Remove(SnapshotFile::Diff) => same || blessed,
                    _ => false,
                })
            &&& ops.no_duplicates()
            &&& forall|i: int, j: int|
                #![trigger ops[i], ops[j]]
                0 <= i < j < ops.len() && ops[i] is Save ==> ops[j] is Save
        }),
{
    let ops = file_ops(comparison, bless);
    let remove_new = SnapshotOp::Remove(SnapshotFile::New);
    let remove_diff = SnapshotOp::Remove(SnapshotFile::Diff);
    match comparison {
        Comparison::NoReference => {
            assert(ops[0] == remove_new);
            assert(ops[1] == SnapshotOp::Save(SnapshotSource::Frame, SnapshotFile::New));
        },
        Comparison::Unreadable(_) => {},
        Comparison::Same => {
            assert(ops[0] == remove_new);
            assert(ops[1] == remove_diff);
        },
        Comparison::Different => {
            if bless {
                assert(ops[0] == remove_new);
                assert(ops[1] == remove_diff);
                assert(ops[2] == SnapshotOp::Save(
                    SnapshotSource::Frame,
                    SnapshotFile::Reference,
                ));
            } else {
                assert(ops[0] == SnapshotOp::Save(SnapshotSource::Frame, SnapshotFile::New));
                assert(ops[1] == SnapshotOp::Save(
                    SnapshotSource::Difference,
                    SnapshotFile::Diff,
                ));
            }
        },
    }
}

/// An operation touches the file that it is for and no other one: the file is gone
/// after it was removed, and holds what was saved in it.
pub proof fn law_an_operation_touches_one_file<I>(
    files: SnapshotFiles,
    file: SnapshotFile,
    folder: Map<Seq<char>, I>,
    frame: I,
    difference: I,
    other: Seq<char>,
)
    ensures
        ({
            let name = files.name(file);
            let removed = folder_after_op(
                SnapshotOp::Remove(file),
                files,
                folder,
                frame,
                difference,
            );
            let kept = folder_after_op(
                SnapshotOp::Save(SnapshotSource::Frame, file),
                files,
                folder,
                frame,
                difference,
            );
            let compared = folder_after_op(
                SnapshotOp::Save(SnapshotSource::Difference, file),
                files,
                folder,
                frame,
                difference,
            );
            &&& !removed.contains_key(name)
            &&& kept.contains_key(name) && kept[name] == frame
            &&& compared.contains_key(name) && compared[name] == difference
            &&& other != name ==> {
                &&& removed.contains_key(other) == folder.contains_key(other)
                &&& kept.contains_key(other) == folder.contains_key(other)
                &&& compared.contains_key(other) == folder.contains_key(other)
                &&& folder.contains_key(other) ==> removed[other] == folder[other]
                    && kept[other] == folder[other] && compared[other] == folder[other]
            }
        }),
{
}

} // verus!
