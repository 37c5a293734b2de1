//! Paths of files, as texts.
//!
//! How paths are put together is a matter of the platform: Unix separates the
//! parts of a path by `/`, and Windows by `\` or `/`. What is said of paths here
//! holds on both.

use vstd::prelude::*;
use vstd::string::StrSliceExecFns;

verus! {

/// A character that separates the parts of a path on some platform.
pub open spec fn is_separator(c: char) -> bool {
    c == '/' || c == '\\'
}

/// The path does not begin with two separators, as the name of a Windows share
/// does.
pub open spec fn is_local(path: Seq<char>) -> bool {
    path.len() >= 2 ==> !(is_separator(path[0]) && is_separator(path[1]))
}

/// The path begins with a name: neither with a separator nor with the letter of a
/// Windows drive.
pub open spec fn is_relative(path: Seq<char>) -> bool {
    &&& path.len() > 0
    &&& !is_separator(path[0])
    &&& path.len() >= 2 ==> path[1] != ':'
}

/// A relative path can be put behind this one with a separator between them.
pub open spec fn takes_a_separator(path: Seq<char>) -> bool {
    &&& path.len() > 0
    &&& is_local(path)
    &&& !is_separator(path.last())
    &&& path.last() != ':'
}

/// The second path stands behind the first, with one separator between them.
pub open spec fn is_joined(joined: Seq<char>, base: Seq<char>, path: Seq<char>) -> bool {
    &&& joined == base + seq![joined[base.len() as int]] + path
    &&& is_separator(joined[base.len() as int])
}

/// The path is a single name.
pub open spec fn is_name(path: Seq<char>) -> bool {
    &&& path.len() > 0
    &&& path != seq!['.']
    &&& forall|i: int| 0 <= i < path.len() ==> !is_separator(#[trigger] path[i])
}

/// The last part of the path is a dot, which leads nowhere else.
pub open spec fn ends_in_place(path: Seq<char>) -> bool {
    path.len() >= 2 && path.last() == '.' && is_separator(path[path.len() - 2])
}

/// The path is the name of something that lies directly in the folder.
pub open spec fn lies_directly_in(path: Seq<char>, folder: Seq<char>) -> bool {
    &&& takes_a_separator(folder)
    &&& !ends_in_place(folder)
    &&& is_relative(path)
    &&& is_name(path)
}

/// The path leads to an entry of a folder by name.
pub open spec fn is_entry(path: Seq<char>, folder: Seq<char>, name: Seq<char>) -> bool {
    &&& path == folder + seq!['/'] + name
    &&& takes_a_separator(folder)
    &&& folder.last() != '.'
    &&& is_name(name)
}

/// If the path leads to an entry of a folder by name, this is that folder.
pub open spec fn is_parent(parent: Option<String>, path: Seq<char>) -> bool {
    forall|folder: Seq<char>, name: Seq<char>| #[trigger]
        is_entry(path, folder, name) ==> (parent matches Some(text) && text@ == folder)
}

/// Whether the path is a single name.
fn is_name_text(path: &str) -> (yes: bool)
    ensures
        yes == is_name(path@),
{
    let length: usize = path.unicode_len();
    if length == 0 {
        return false;
    }
    if length == 1 && path.get_char(0) == '.' {
        assert(path@ == seq!['.']);
        return false;
    }
    let mut i: usize = 0;
    while i < length
        invariant
            i <= length,
            length == path@.len(),
            forall|k: int| 0 <= k < i ==> !is_separator(#[trigger] path@[k]),
        decreases length - i,
    {
        let c = path.get_char(i);
        if c == '/' || c == '\\' {
            assert(is_separator(path@[i as int]));
            return false;
        }
        i = i + 1;
    }
    true
}

/// Whether the path is the name of something that lies directly in the folder.
pub(crate) fn is_directly_in(path: &str, folder: &str) -> (yes: bool)
    ensures
        yes == lies_directly_in(path@, folder@),
{
    if !is_name_text(path) {
        return false;
    }
    if path.unicode_len() >= 2 && path.get_char(1) == ':' {
        return false;
    }
    assert(!is_separator(path@[0]));
    let length: usize = folder.unicode_len();
    if length == 0 {
        return false;
    }
    let last = folder.get_char(length - 1);
    if last == '/' || last == '\\' || last == ':' {
        return false;
    }
    if length == 1 {
        return true;
    }
    let first = folder.get_char(0);
    let second = folder.get_char(1);
    if (first == '/' || first == '\\') && (second == '/' || second == '\\') {
        return false;
    }
    let before_last = folder.get_char(length - 2);
    !(last == '.' && (before_last == '/' || before_last == '\\'))
}

/// Calls [`std::path::Path::join`], which adjoins a path to another one: a
/// relative path is put behind the other with a separator of the platform between
/// them. What comes of two texts is a text, so none of it is lost on the way back.
///
/// Nothing is said of a path that is not relative, nor where the first path is
/// empty, begins like a Windows share, ends in a separator or may be the bare name
/// of a drive: what becomes of these is another matter on each platform.
#[verifier::external_body]
pub(crate) fn join(base: &str, path: &str) -> (joined: String)
    ensures
        takes_a_separator(base@) && is_relative(path@) ==> is_joined(joined@, base@, path@),
{
    std::path::Path::new(base).join(path).to_string_lossy().into_owned()
}

/// Calls [`std::path::Path::parent`], which gives the path without its last part.
///
/// Nothing is said of a path that does not end in a `/` and a name, nor where the
/// folder before that is a root, begins like a Windows share, may be the bare name
/// of a drive or ends in a separator or a dot: what becomes of these is another
/// matter on each platform.
#[verifier::external_body]
pub(crate) fn parent(path: &str) -> (folder: Option<String>)
    ensures
        is_parent(folder, path@),
{
    std::path::Path::new(path).parent().map(|folder| folder.to_string_lossy().into_owned())
}

/// One path stands behind another exactly if nothing but a slash or a backslash is
/// between them.
pub proof fn law_joined_paths(joined: Seq<char>, base: Seq<char>, path: Seq<char>)
    ensures
        is_joined(joined, base, path) <==> (joined == base + seq!['/'] + path || joined == base
            + seq!['\\'] + path),
{
    if joined == base + seq!['/'] + path {
        assert(joined[base.len() as int] == '/');
    }
    if joined == base + seq!['\\'] + path {
        assert(joined[base.len() as int] == '\\');
    }
}

/// A path is relative exactly if it begins with a character other than a
/// separator, and that is not the letter of a drive. A relative path can be put
/// behind a path that is not empty, does not begin with two separators, and ends
/// in a character other than a separator or a colon.
pub proof fn law_paths_that_can_be_joined(path: Seq<char>)
    ensures
        is_relative(path) <==> (path.len() > 0 && path[0] != '/' && path[0] != '\\' && (path.len()
            == 1 || path[1] != ':')),
        takes_a_separator(path) <==> (path.len() > 0 && path.last() != '/' && path.last() != '\\'
            && path.last() != ':' && (path.len() == 1 || !((path[0] == '/' || path[0] == '\\') && (
        path[1] == '/' || path[1] == '\\')))),
{
}

/// A name has a character, is not the dot alone and has no separator in it.
pub proof fn law_names_have_no_separators(name: Seq<char>)
    ensures
        is_name(name) <==> (name.len() > 0 && name != seq!['.'] && !name.contains('/')
            && !name.contains('\\')),
{
    if is_name(name) {
        assert forall|i: int| 0 <= i < name.len() implies name[i] != '/' && name[i] != '\\' by {
            assert(!is_separator(name[i]));
        }
    }
}

/// A folder and a name with a slash between them lead to the entry of the folder by
/// that name, where the folder ends in a character of a name. No other path does.
pub proof fn law_entries_of_a_folder(path: Seq<char>, folder: Seq<char>, name: Seq<char>)
    ensures
        is_entry(path, folder, name) <==> (path == folder + seq!['/'] + name && takes_a_separator(
            folder,
        ) && folder.last() != '.' && is_name(name)),
{
}

/// Something lies directly in a folder exactly if it is given by a relative name
/// alone, where the folder can be put before it and does not end in a dot behind a
/// separator.
pub proof fn law_names_directly_in_a_folder(path: Seq<char>, folder: Seq<char>)
    ensures
        lies_directly_in(path, folder) <==> (is_relative(path) && is_name(path)
            && takes_a_separator(folder) && !(folder.len() >= 2 && folder.last() == '.' && (
        folder[folder.len() - 2] == '/' || folder[folder.len() - 2] == '\\'))),
{
}

} // verus!
