//! What holds of every inspection.

use crate::classify::{is_package_path, is_project_folder};
use crate::project::{
    project_type_of, required_version_of, search_of, seen_config, InspectionError, Lookup,
    Progress, ProjectView, Snapshot, SnapshotView,
};
use crate::reader::ReadError;
use vstd::prelude::*;

verus! {

/// An inspection asks only for a look that has not been taken. So every round
/// of asking and looking adds to the snapshot, and after at most three rounds
/// nothing is left to ask for.
pub proof fn lemma_asks_for_what_is_not_seen(path: Seq<char>, seen: SnapshotView)
    ensures
        project_type_of(path, seen) matches Progress::Needs(lookup) ==> !seen.has(lookup),
        required_version_of(path, seen) matches Progress::Needs(lookup) ==> !seen.has(lookup),
{
}

/// With every look taken an inspection comes to a result.
pub proof fn lemma_all_seen_is_enough(path: Seq<char>, seen: SnapshotView)
    requires
        seen.has(Lookup::Package),
        seen.has(Lookup::Entries),
        seen.has(Lookup::Config),
    ensures
        project_type_of(path, seen) is Done,
        required_version_of(path, seen) is Done,
{
}

/// A result stands: looks that are taken after an inspection came to its
/// result do not change it. The result rests on what was asked for alone.
pub proof fn lemma_result_stands(path: Seq<char>, seen: SnapshotView, later: SnapshotView)
    requires
        later.extends(seen),
    ensures
        project_type_of(path, seen) is Done ==> project_type_of(path, later) == project_type_of(
            path,
            seen,
        ),
        required_version_of(path, seen) is Done ==> required_version_of(path, later)
            == required_version_of(path, seen),
{
}

/// An inspection goes by what the snapshot holds and by nothing else: two
/// snapshots that hold the same get the same answer.
pub proof fn lemma_same_seen_same_answer(path: Seq<char>, first: Snapshot, second: Snapshot)
    requires
        first@ == second@,
    ensures
        project_type_of(path, first@) == project_type_of(path, second@),
        required_version_of(path, first@) == required_version_of(path, second@),
{
}

/// The kind of a project is never refused for want of a version: a project
/// without one is of no kind, and the only failure is a failure to read.
pub proof fn lemma_kind_fails_on_reading_alone(path: Seq<char>, seen: SnapshotView)
    ensures
        !(project_type_of(path, seen) matches Progress::Done(
            Err(InspectionError::VersionNotDetermined),
        )),
{
}

/// A failure to read the configuration comes out of an inspection as it is:
/// out of the search for the required version always, and out of the
/// inspection of the kind wherever the configuration is read, which is at a
/// package path and at a path with the entry point under it.
pub proof fn lemma_read_failure_comes_out(path: Seq<char>, seen: SnapshotView, error: ReadError)
    requires
        seen_config(path, seen) matches Some(fetched) && search_of(path, fetched) == Err::<
            Option<Seq<char>>,
            ReadError,
        >(error),
    ensures
        required_version_of(path, seen) matches Progress::Done(Err(InspectionError::Read(e)))
            && e == error,
        is_package_path(path) || (seen.entries matches Some(names) && is_project_folder(names))
            ==> (project_type_of(path, seen) matches Progress::Done(
            Err(InspectionError::Read(e)),
        ) && e == error),
{
}

/// A project is a package only at a package path, with the version that its
/// package declares. It is a folder only at a path that is no package path and
/// has the entry point under it, with the version that its configuration file
/// declares.
pub proof fn lemma_kind_rests_on_its_check(path: Seq<char>, seen: SnapshotView)
    ensures
        project_type_of(path, seen) matches Progress::Done(Ok(ProjectView::File(version))) ==> {
            &&& is_package_path(path)
            &&& seen.package matches Some(package)
            &&& search_of(path, package) matches Ok(Some(found))
            &&& found == version
        },
        project_type_of(path, seen) matches Progress::Done(Ok(ProjectView::Folder(version))) ==> {
            &&& !is_package_path(path)
            &&& seen.entries matches Some(names)
            &&& is_project_folder(names)
            &&& seen.config matches Some(config)
            &&& search_of(path, config) matches Ok(Some(found))
            &&& found == version
        },
{
}

/// The version in the kind of a project is the version that the project asks
/// for.
pub proof fn lemma_kind_holds_the_required_version(path: Seq<char>, seen: SnapshotView)
    ensures
        project_type_of(path, seen) matches Progress::Done(Ok(ProjectView::File(version))) ==> {
            &&& required_version_of(path, seen) matches Progress::Done(Ok(required))
            &&& required == version
        },
        project_type_of(path, seen) matches Progress::Done(Ok(ProjectView::Folder(version))) ==> {
            &&& required_version_of(path, seen) matches Progress::Done(Ok(required))
            &&& required == version
        },
{
}

/// A path that is no package path and has no entry point under it is of no
/// kind, without failure and without a look at any file.
pub proof fn lemma_neither_package_nor_folder(path: Seq<char>, seen: SnapshotView)
    requires
        !is_package_path(path),
        seen.entries matches Some(names) && !is_project_folder(names),
    ensures
        project_type_of(path, seen) matches Progress::Done(Ok(ProjectView::Unknown)),
{
}

/// A folder with the entry point whose configuration is read and declares no
/// version: its version cannot be determined, and it is of no kind.
pub proof fn lemma_folder_without_version(path: Seq<char>, seen: SnapshotView)
    requires
        !is_package_path(path),
        seen.entries matches Some(names) && is_project_folder(names),
        seen.config matches Some(config) && search_of(path, config) matches Ok(None),
    ensures
        required_version_of(path, seen) matches Progress::Done(
            Err(InspectionError::VersionNotDetermined),
        ),
        project_type_of(path, seen) matches Progress::Done(Ok(ProjectView::Unknown)),
{
}

/// What is on the disk at a project path, whether it has been looked at or
/// not.
pub struct Disk {
    /// The file at the path itself, where it can be read.
    pub package: Option<Seq<u8>>,
    /// The names directly under the path.
    pub entries: Seq<Seq<char>>,
    /// The configuration file under the path, where it can be read.
    pub config: Option<Seq<u8>>,
}

impl Disk {
    /// The snapshot of one who has taken every look.
    pub open spec fn all_seen(self) -> SnapshotView {
        SnapshotView {
            package: Some(self.package),
            entries: Some(self.entries),
            config: Some(self.config),
        }
    }

    /// What has been seen once one more look has been taken.
    pub open spec fn look(self, seen: SnapshotView, lookup: Lookup) -> SnapshotView {
        match lookup {
            Lookup::Package => SnapshotView { package: Some(self.package), ..seen },
            Lookup::Entries => SnapshotView { entries: Some(self.entries), ..seen },
            Lookup::Config => SnapshotView { config: Some(self.config), ..seen },
        }
    }
}

/// The number of looks that have not been taken.
pub open spec fn unseen(seen: SnapshotView) -> nat {
    let package: nat = if seen.package is None { 1 } else { 0 };
    let entries: nat = if seen.entries is None { 1 } else { 0 };
    let config: nat = if seen.config is None { 1 } else { 0 };
    package + entries + config
}

/// The kind that a caller arrives at who starts from `seen`, takes each look
/// that the inspection asks for and inspects again, until there is a result.
pub open spec fn kind_by_looking(path: Seq<char>, disk: Disk, seen: SnapshotView) -> Result<
    ProjectView,
    InspectionError,
>
    decreases unseen(seen),
{
    match project_type_of(path, seen) {
        Progress::Done(result) => result,
        // No inspection asks for what has been seen: the first branch is
        // there to bound the looking, and is never taken.
        Progress::Needs(lookup) => if seen.has(lookup) {
            Ok(ProjectView::Unknown)
        } else {
            kind_by_looking(path, disk, disk.look(seen, lookup))
        },
    }
}

/// The version that a caller arrives at who starts from `seen`, takes each
/// look that the inspection asks for and inspects again, until there is a
/// result.
pub open spec fn version_by_looking(path: Seq<char>, disk: Disk, seen: SnapshotView) -> Result<
    Seq<char>,
    InspectionError,
>
    decreases unseen(seen),
{
    match required_version_of(path, seen) {
        Progress::Done(result) => result,
        // As above, the first branch is never taken.
        Progress::Needs(lookup) => if seen.has(lookup) {
            Err(InspectionError::VersionNotDetermined)
        } else {
            version_by_looking(path, disk, disk.look(seen, lookup))
        },
    }
}

/// Looking as asked is enough: a caller who has seen nothing that is not on
/// the disk, and who takes the looks that the inspection asks for, arrives at
/// the result that the whole disk gives. The looks that were never asked for
/// do not matter.
pub proof fn lemma_looking_as_asked_is_enough(path: Seq<char>, disk: Disk, seen: SnapshotView)
    requires
        disk.all_seen().extends(seen),
    ensures
        project_type_of(path, disk.all_seen()) == Progress::Done(
            kind_by_looking(path, disk, seen),
        ),
        required_version_of(path, disk.all_seen()) == Progress::Done(
            version_by_looking(path, disk, seen),
        ),
    decreases unseen(seen),
{
    lemma_result_stands(path, seen, disk.all_seen());
    lemma_all_seen_is_enough(path, disk.all_seen());
    match project_type_of(path, seen) {
        Progress::Done(_) => {},
        Progress::Needs(lookup) => {
            lemma_looking_as_asked_is_enough(path, disk, disk.look(seen, lookup));
        },
    }
    match required_version_of(path, seen) {
        Progress::Done(_) => {},
        Progress::Needs(lookup) => {
            lemma_looking_as_asked_is_enough(path, disk, disk.look(seen, lookup));
        },
    }
}

/// Inspecting the same path twice, with nothing on the disk changed in
/// between, gives the same result, whatever each of the two had seen of the
/// disk when it began.
pub proof fn lemma_same_disk_same_result(
    path: Seq<char>,
    disk: Disk,
    first: SnapshotView,
    second: SnapshotView,
)
    requires
        disk.all_seen().extends(first),
        disk.all_seen().extends(second),
    ensures
        kind_by_looking(path, disk, first) == kind_by_looking(path, disk, second),
        version_by_looking(path, disk, first) == version_by_looking(path, disk, second),
{
    lemma_looking_as_asked_is_enough(path, disk, first);
    lemma_looking_as_asked_is_enough(path, disk, second);
}

} // verus!
