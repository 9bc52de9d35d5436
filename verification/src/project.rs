//! Inspecting a project: which version it asks for, and of what kind it is.
//!
//! An inspection never touches the disk. It works on a [`Snapshot`], which
//! holds what has been seen of the disk so far, and either comes to a result or
//! names the one look that it needs next. The caller takes that look, adds it
//! to the snapshot and inspects again.

use crate::classify::{is_love_package, is_love_project_folder, is_package_path, is_project_folder};
use crate::reader::{contents_of, get_file_contents, Fetched, ReadError};
use crate::version::{declared_version, found_view, get_version_from_file, Version};
use vstd::prelude::*;

verus! {

/// Name of the configuration file of a project.
pub const CONFIG_FILE: &'static str = "conf.lua";

/// A project by its kind, with the version it asks for.
#[derive(Debug, PartialEq, Eq)]
pub enum Project {
    /// A package.
    File(Version),
    /// A folder.
    Folder(Version),
    /// Nothing that a version could be found for.
    Unknown,
}

/// A project, its version by its dotted text.
pub enum ProjectView {
    File(Seq<char>),
    Folder(Seq<char>),
    Unknown,
}

impl View for Project {
    type V = ProjectView;

    open spec fn view(&self) -> ProjectView {
        match self {
            Project::File(v) => ProjectView::File(v@),
            Project::Folder(v) => ProjectView::Folder(v@),
            Project::Unknown => ProjectView::Unknown,
        }
    }
}

/// Why an inspection came to no result.
#[derive(Debug, Clone, Copy, PartialEq, Eq, Structural)]
pub enum InspectionError {
    /// The configuration could not be read.
    Read(ReadError),
    /// The configuration was read and declares no version.
    VersionNotDetermined,
}

/// One look at the disk.
#[derive(Debug, Clone, Copy, PartialEq, Eq, Structural)]
pub enum Lookup {
    /// The file at the project path itself, as a whole.
    Package,
    /// The names found directly under the project path, or of these names
    /// the entry point alone.
    Entries,
    /// The configuration file under the project path, as a whole.
    Config,
}

/// How far an inspection got.
#[derive(Debug, PartialEq, Eq)]
pub enum Progress<T> {
    /// The inspection cannot go on before this look has been taken.
    Needs(Lookup),
    /// The inspection is over.
    Done(T),
}

/// What has been seen of the disk at a project path. A field is `None` as long
/// as that look has not been taken.
#[derive(Debug, PartialEq, Eq)]
pub struct Snapshot {
    /// The file at the path itself.
    pub package: Option<Fetched>,
    /// Names found directly under the path; none where the path is no
    /// folder. The inspection asks of them only whether the entry point is
    /// among them, so a caller may leave out every other name.
    pub entries: Option<Vec<String>>,
    /// The configuration file under the path.
    pub config: Option<Fetched>,
}

/// A snapshot by the bytes and names that it holds.
pub struct SnapshotView {
    pub package: Option<Option<Seq<u8>>>,
    pub entries: Option<Seq<Seq<char>>>,
    pub config: Option<Option<Seq<u8>>>,
}

/// What a look that may not have been taken brought for a file.
pub open spec fn fetched_view(fetched: Option<Fetched>) -> Option<Option<Seq<u8>>> {
    match fetched {
        Some(f) => Some(f@),
        None => None,
    }
}

impl View for Snapshot {
    type V = SnapshotView;

    open spec fn view(&self) -> SnapshotView {
        SnapshotView {
            package: fetched_view(self.package),
            entries: self.entries.deep_view(),
            config: fetched_view(self.config),
        }
    }
}

impl SnapshotView {
    /// Whether the look has been taken.
    pub open spec fn has(self, lookup: Lookup) -> bool {
        match lookup {
            Lookup::Package => self.package is Some,
            Lookup::Entries => self.entries is Some,
            Lookup::Config => self.config is Some,
        }
    }

    /// `self` holds all that `earlier` holds, and maybe more.
    pub open spec fn extends(self, earlier: SnapshotView) -> bool {
        &&& earlier.package is Some ==> self.package == earlier.package
        &&& earlier.entries is Some ==> self.entries == earlier.entries
        &&& earlier.config is Some ==> self.config == earlier.config
    }
}

/// The look that brings the configuration of the project at `path`: a package
/// holds its own, a folder has it in a file.
pub open spec fn config_source(path: Seq<char>) -> Lookup {
    if is_package_path(path) {
        Lookup::Package
    } else {
        Lookup::Config
    }
}

/// What a snapshot holds of the look that brings the configuration.
pub open spec fn seen_config(path: Seq<char>, seen: SnapshotView) -> Option<Option<Seq<u8>>> {
    if is_package_path(path) {
        seen.package
    } else {
        seen.config
    }
}

/// The search for a version: the configuration is read out of what was
/// fetched, and the version that it declares is looked for.
pub open spec fn search_of(path: Seq<char>, fetched: Option<Seq<u8>>) -> Result<
    Option<Seq<char>>,
    ReadError,
> {
    match contents_of(path, CONFIG_FILE@, fetched) {
        Ok(text) => Ok(declared_version(text)),
        Err(e) => Err(e),
    }
}

/// The version that a search found, where a version is asked for: a search
/// that found none has failed.
pub open spec fn required(search: Result<Option<Seq<char>>, ReadError>) -> Result<
    Seq<char>,
    InspectionError,
> {
    match search {
        Ok(Some(version)) => Ok(version),
        Ok(None) => Err(InspectionError::VersionNotDetermined),
        Err(e) => Err(InspectionError::Read(e)),
    }
}

/// The version that the project at `path` asks for, as far as `seen` tells.
pub open spec fn required_version_of(path: Seq<char>, seen: SnapshotView) -> Progress<
    Result<Seq<char>, InspectionError>,
> {
    match seen_config(path, seen) {
        None => Progress::Needs(config_source(path)),
        Some(fetched) => Progress::Done(required(search_of(path, fetched))),
    }
}

/// What a search says of a package. `None` passes the project on to the next
/// check: a package without a version is no failure.
pub open spec fn package_verdict(search: Result<Option<Seq<char>>, ReadError>) -> Option<
    Result<ProjectView, InspectionError>,
> {
    match search {
        Ok(Some(version)) => Some(Ok(ProjectView::File(version))),
        Ok(None) => None,
        Err(e) => Some(Err(InspectionError::Read(e))),
    }
}

/// What a search says of a folder. `None` passes the project on: a folder
/// without a version is no failure.
pub open spec fn folder_verdict(search: Result<Option<Seq<char>>, ReadError>) -> Option<
    Result<ProjectView, InspectionError>,
> {
    match search {
        Ok(Some(version)) => Some(Ok(ProjectView::Folder(version))),
        Ok(None) => None,
        Err(e) => Some(Err(InspectionError::Read(e))),
    }
}

/// The check for a package. A path that is no package path passes on.
pub open spec fn package_check(path: Seq<char>, seen: SnapshotView) -> Progress<
    Option<Result<ProjectView, InspectionError>>,
> {
    if !is_package_path(path) {
        Progress::Done(None)
    } else {
        match seen.package {
            None => Progress::Needs(Lookup::Package),
            Some(fetched) => Progress::Done(package_verdict(search_of(path, fetched))),
        }
    }
}

/// The check for a project folder. A path without the entry point under it
/// passes on. The configuration is read as for any project: out of the package
/// where the path is a package path.
pub open spec fn folder_check(path: Seq<char>, seen: SnapshotView) -> Progress<
    Option<Result<ProjectView, InspectionError>>,
> {
    match seen.entries {
        None => Progress::Needs(Lookup::Entries),
        Some(names) => if !is_project_folder(names) {
            Progress::Done(None)
        } else {
            match seen_config(path, seen) {
                None => Progress::Needs(config_source(path)),
                Some(fetched) => Progress::Done(folder_verdict(search_of(path, fetched))),
            }
        },
    }
}

/// The kind of the project at `path`, as far as `seen` tells: the check for a
/// package comes first, the check for a folder second, and a project that
/// both pass on is of no kind.
pub open spec fn project_type_of(path: Seq<char>, seen: SnapshotView) -> Progress<
    Result<ProjectView, InspectionError>,
> {
    match package_check(path, seen) {
        Progress::Needs(lookup) => Progress::Needs(lookup),
        Progress::Done(Some(verdict)) => Progress::Done(verdict),
        Progress::Done(None) => match folder_check(path, seen) {
            Progress::Needs(lookup) => Progress::Needs(lookup),
            Progress::Done(Some(verdict)) => Progress::Done(verdict),
            Progress::Done(None) => Progress::Done(Ok(ProjectView::Unknown)),
        },
    }
}

/// A search by the dotted text of what it found.
pub open spec fn search_view(search: Result<Option<Version>, ReadError>) -> Result<
    Option<Seq<char>>,
    ReadError,
> {
    match search {
        Ok(found) => Ok(found_view(found)),
        Err(e) => Err(e),
    }
}

/// A version or the reason why there is none, by its dotted text.
pub open spec fn version_view(version: Result<Version, InspectionError>) -> Result<
    Seq<char>,
    InspectionError,
> {
    match version {
        Ok(v) => Ok(v@),
        Err(e) => Err(e),
    }
}

/// A project or the reason why there is none, by its view.
pub open spec fn project_view(project: Result<Project, InspectionError>) -> Result<
    ProjectView,
    InspectionError,
> {
    match project {
        Ok(p) => Ok(p@),
        Err(e) => Err(e),
    }
}

/// A verdict by its view.
pub open spec fn verdict_view(verdict: Option<Result<Project, InspectionError>>) -> Option<
    Result<ProjectView, InspectionError>,
> {
    match verdict {
        Some(project) => Some(project_view(project)),
        None => None,
    }
}

/// How far the search for the required version got, by its view.
pub open spec fn required_view(progress: Progress<Result<Version, InspectionError>>) -> Progress<
    Result<Seq<char>, InspectionError>,
> {
    match progress {
        Progress::Needs(lookup) => Progress::Needs(lookup),
        Progress::Done(version) => Progress::Done(version_view(version)),
    }
}

/// How far the inspection of the kind got, by its view.
pub open spec fn kind_view(progress: Progress<Result<Project, InspectionError>>) -> Progress<
    Result<ProjectView, InspectionError>,
> {
    match progress {
        Progress::Needs(lookup) => Progress::Needs(lookup),
        Progress::Done(project) => Progress::Done(project_view(project)),
    }
}

impl Snapshot {
    /// A snapshot for which no look has been taken yet.
    pub fn new() -> (seen: Snapshot)
        ensures
            seen@ == (SnapshotView { package: None, entries: None, config: None }),
    {
        Snapshot { package: None, entries: None, config: None }
    }
}

/// Reads the configuration of the project at `project_path` out of what was
/// fetched, and looks for the version that it declares.
pub fn find_version(project_path: &str, fetched: &Fetched) -> (search: Result<
    Option<Version>,
    ReadError,
>)
    ensures
        search_view(search) == search_of(project_path@, fetched@),
{
    match get_file_contents(project_path, CONFIG_FILE, fetched) {
        Ok(text) => Ok(get_version_from_file(text.as_str())),
        Err(e) => Err(e),
    }
}

/// The version that a search found, where a version is asked for.
pub fn required_version(search: Result<Option<Version>, ReadError>) -> (version: Result<
    Version,
    InspectionError,
>)
    ensures
        version_view(version) == required(search_view(search)),
{
    match search {
        Ok(Some(version)) => Ok(version),
        Ok(None) => Err(InspectionError::VersionNotDetermined),
        Err(e) => Err(InspectionError::Read(e)),
    }
}

/// What a search says of a package: its kind and version, the failure to read
/// it, or `None` where the project is passed on.
pub fn judge_package(search: Result<Option<Version>, ReadError>) -> (verdict: Option<
    Result<Project, InspectionError>,
>)
    ensures
        verdict_view(verdict) == package_verdict(search_view(search)),
{
    match search {
        Ok(Some(version)) => Some(Ok(Project::File(version))),
        Ok(None) => None,
        Err(e) => Some(Err(InspectionError::Read(e))),
    }
}

/// What a search says of a folder: its kind and version, the failure to read
/// it, or `None` where the project is passed on.
pub fn judge_folder(search: Result<Option<Version>, ReadError>) -> (verdict: Option<
    Result<Project, InspectionError>,
>)
    ensures
        verdict_view(verdict) == folder_verdict(search_view(search)),
{
    match search {
        Ok(Some(version)) => Some(Ok(Project::Folder(version))),
        Ok(None) => None,
        Err(e) => Some(Err(InspectionError::Read(e))),
    }
}

/// Looks inside the configuration of a project folder or package to determine
/// which version it should be run with.
///
/// The configuration comes out of the package for a package path, and out of
/// the configuration file under the path for any other. As long as `seen` does
/// not hold that look, the look is asked for.
pub fn get_required_version(project_path: &str, seen: &Snapshot) -> (progress: Progress<
    Result<Version, InspectionError>,
>)
    ensures
        required_view(progress) == required_version_of(project_path@, seen@),
{
    let (source, lookup) = if is_love_package(project_path) {
        (&seen.package, Lookup::Package)
    } else {
        (&seen.config, Lookup::Config)
    };
    match source {
        None => Progress::Needs(lookup),
        Some(fetched) => Progress::Done(required_version(find_version(project_path, fetched))),
    }
}

/// Determines of what kind the project at a path is, and with it the version
/// that the project asks for.
///
/// A package path is read as a package first. A failure to read it ends the
/// inspection, a version makes the project a package, and a package without a
/// version is passed on. Then the names under the path are looked at: with the
/// entry point among them the configuration is read again, as for any project
/// at that path, and a version makes the project a folder. A project that both
/// checks pass on is of no kind, which is no failure.
pub fn project_type(project_path: &str, seen: &Snapshot) -> (progress: Progress<
    Result<Project, InspectionError>,
>)
    ensures
        kind_view(progress) == project_type_of(project_path@, seen@),
{
    let packaged = is_love_package(project_path);
    if packaged {
        match &seen.package {
            None => {
                return Progress::Needs(Lookup::Package);
            },
            Some(fetched) => match judge_package(find_version(project_path, fetched)) {
                Some(verdict) => {
                    return Progress::Done(verdict);
                },
                None => {},
            },
        }
    }
    match &seen.entries {
        None => {
            return Progress::Needs(Lookup::Entries);
        },
        Some(names) => {
            // At a package path the folder is read out of the package again,
            // which has just been found to declare no version.
            if is_love_project_folder(names) && !packaged {
                match &seen.config {
                    None => {
                        return Progress::Needs(Lookup::Config);
                    },
                    Some(fetched) => match judge_folder(find_version(project_path, fetched)) {
                        Some(verdict) => {
                            return Progress::Done(verdict);
                        },
                        None => {},
                    },
                }
            }
        },
    }
    Progress::Done(Ok(Project::Unknown))
}

} // verus!
