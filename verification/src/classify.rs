//! Telling a packaged project from a project folder.

use crate::text::same_text;
use vstd::prelude::*;

verus! {

/// Extension that marks a path as a packaged project.
pub const PACKAGE_EXTENSION: &'static str = "love";

/// Name of the file that a project folder holds at its root.
pub const ENTRY_POINT: &'static str = "main.lua";

/// The path is a package path: it ends in `.love`.
pub open spec fn is_package_path(path: Seq<char>) -> bool {
    let end = path.len() as int;
    &&& end >= 5
    &&& path[end - 5] == '.'
    &&& path[end - 4] == 'l'
    &&& path[end - 3] == 'o'
    &&& path[end - 2] == 'v'
    &&& path[end - 1] == 'e'
}

/// `dot` is the place of the last `.` of `path`.
pub open spec fn is_last_dot(path: Seq<char>, dot: int) -> bool {
    &&& 0 <= dot < path.len()
    &&& path[dot] == '.'
    &&& forall|j: int| dot < j < path.len() ==> path[j] != '.'
}

/// The path has the extension `extension`: it holds a `.`, and `extension` is
/// what stands behind the last one. A path without any `.` has no extension.
pub open spec fn has_extension(path: Seq<char>, extension: Seq<char>) -> bool {
    exists|dot: int|
        #[trigger] is_last_dot(path, dot) && path.subrange(dot + 1, path.len() as int)
            == extension
}

/// A path is a package path exactly when it has the package extension. Of a
/// path with several `.` only what stands behind the last one counts.
pub proof fn lemma_package_path_has_the_extension(path: Seq<char>)
    ensures
        is_package_path(path) <==> has_extension(path, PACKAGE_EXTENSION@),
{
    reveal_strlit("love");
    let end = path.len() as int;
    if has_extension(path, PACKAGE_EXTENSION@) {
        let dot = choose|dot: int|
            #[trigger] is_last_dot(path, dot) && path.subrange(dot + 1, end) == PACKAGE_EXTENSION@;
        let extension = path.subrange(dot + 1, end);
        assert(extension.len() == 4);
        assert(extension[0] == path[end - 4] && extension[1] == path[end - 3] && extension[2]
            == path[end - 2] && extension[3] == path[end - 1]);
    }
    if is_package_path(path) {
        let dot = end - 5;
        assert(is_last_dot(path, dot));
        assert(path.subrange(dot + 1, end) =~= PACKAGE_EXTENSION@);
    }
}

/// A path without any `.` is no package path.
pub proof fn lemma_dotless_path_is_no_package(path: Seq<char>)
    requires
        !path.contains('.'),
    ensures
        !is_package_path(path),
        !has_extension(path, PACKAGE_EXTENSION@),
{
}

/// The names found directly under a path make it a project folder: the entry
/// point is among them.
pub open spec fn is_project_folder(entries: Seq<Seq<char>>) -> bool {
    entries.contains(ENTRY_POINT@)
}

/// A path under which nothing is found is no project folder.
pub proof fn lemma_nothing_found_is_no_folder()
    ensures
        !is_project_folder(Seq::empty()),
{
}

/// Whether the path names a packaged project: it goes by the extension alone.
pub fn is_love_package(project_path: &str) -> (is_package: bool)
    ensures
        is_package == is_package_path(project_path@),
{
    let suffix = ".love";
    proof {
        reveal_strlit(".love");
    }
    let length: usize = project_path.unicode_len();
    let suffix_length: usize = suffix.unicode_len();
    if length < suffix_length {
        return false;
    }
    let tail = project_path.substring_char(length - suffix_length, length);
    assert forall|k: int| 0 <= k < 5 implies tail@[k] == project_path@[length - 5 + k] by {}
    let same = same_text(tail, suffix);
    assert(same ==> tail@[0] == suffix@[0] && tail@[1] == suffix@[1] && tail@[2] == suffix@[2]
        && tail@[3] == suffix@[3] && tail@[4] == suffix@[4]);
    assert(is_package_path(project_path@) ==> tail@ =~= suffix@);
    same
}

/// Whether the names found directly under a path hold the entry point of a
/// project. A path that does not exist has no names under it.
pub fn is_love_project_folder(entries: &Vec<String>) -> (is_folder: bool)
    ensures
        is_folder == is_project_folder(entries.deep_view()),
        is_folder <==> exists|i: int|
            0 <= i < entries@.len() && (#[trigger] entries@[i])@ == ENTRY_POINT@,
{
    let n: usize = entries.len();
    let mut i: usize = 0;
    while i < n
        invariant
            n == entries@.len(),
            i <= n,
            forall|j: int| 0 <= j < i ==> entries@[j]@ != ENTRY_POINT@,
        decreases n - i,
    {
        if same_text(entries[i].as_str(), ENTRY_POINT) {
            assert(entries.deep_view()[i as int] == ENTRY_POINT@);
            return true;
        }
        i = i + 1;
    }
    assert forall|j: int| 0 <= j < entries.deep_view().len() implies entries.deep_view()[j]
        != ENTRY_POINT@ by {
        assert(entries.deep_view()[j] == entries@[j]@);
    }
    false
}

} // verus!
