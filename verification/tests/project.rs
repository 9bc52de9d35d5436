use love_project::project::{
    find_version, get_required_version, judge_folder, judge_package, project_type,
    required_version, InspectionError, Lookup, Progress, Project, Snapshot, CONFIG_FILE,
};
use love_project::reader::{Fetched, ReadError};
use love_project::version::Version;
use std::io::Write;

fn package(files: &[(&str, &[u8])]) -> Fetched {
    let mut writer = zip::ZipWriter::new(std::io::Cursor::new(Vec::new()));
    for (name, bytes) in files {
        writer.start_file(*name, zip::write::SimpleFileOptions::default()).unwrap();
        writer.write_all(bytes).unwrap();
    }
    Fetched::Bytes(writer.finish().unwrap().into_inner())
}

fn file(text: &str) -> Fetched {
    Fetched::Bytes(text.as_bytes().to_vec())
}

fn names(list: &[&str]) -> Vec<String> {
    list.iter().map(|name| name.to_string()).collect()
}

fn version(text: &str) -> Version {
    Version::from_str(text).unwrap()
}

fn folder(entries: &[&str], config: Fetched) -> Snapshot {
    Snapshot { package: None, entries: Some(names(entries)), config: Some(config) }
}

/// Inspects the way a caller does: every look that is asked for is taken from
/// `disk` and added to what has been seen. Hands out the result and the looks
/// in the order in which they were asked for.
fn inspect(path: &str, disk: &Snapshot) -> (Result<Project, InspectionError>, Vec<Lookup>) {
    let mut seen = Snapshot::new();
    let mut asked = Vec::new();
    loop {
        match project_type(path, &seen) {
            Progress::Done(result) => return (result, asked),
            Progress::Needs(lookup) => {
                assert!(!asked.contains(&lookup));
                asked.push(lookup);
                match lookup {
                    Lookup::Package => seen.package = Some(copy(disk.package.as_ref().unwrap())),
                    Lookup::Entries => seen.entries = Some(disk.entries.clone().unwrap()),
                    Lookup::Config => seen.config = Some(copy(disk.config.as_ref().unwrap())),
                }
            },
        }
    }
}

fn copy(fetched: &Fetched) -> Fetched {
    match fetched {
        Fetched::Missing => Fetched::Missing,
        Fetched::Bytes(bytes) => Fetched::Bytes(bytes.clone()),
    }
}

#[test]
fn folder_with_version_is_a_folder() {
    let seen = folder(&["main.lua", "conf.lua"], file("version = \"11.3\""));
    assert_eq!(get_required_version("game", &seen), Progress::Done(Ok(version("11.3"))));
    assert_eq!(project_type("game", &seen), Progress::Done(Ok(Project::Folder(version("11.3")))));
}

#[test]
fn package_with_version_is_a_package() {
    let seen = Snapshot {
        package: Some(package(&[("conf.lua", b"version = \"0.10.2\"")])),
        entries: Some(Vec::new()),
        config: Some(Fetched::Missing),
    };
    assert_eq!(
        project_type("game.love", &seen),
        Progress::Done(Ok(Project::File(version("0.10.2"))))
    );
    assert_eq!(get_required_version("game.love", &seen), Progress::Done(Ok(version("0.10.2"))));
}

#[test]
fn folder_without_version_is_unknown() {
    let seen = folder(&["main.lua", "conf.lua"], file("function love.conf(t)\nend\n"));
    assert_eq!(
        get_required_version("game", &seen),
        Progress::Done(Err(InspectionError::VersionNotDetermined))
    );
    assert_eq!(project_type("game", &seen), Progress::Done(Ok(Project::Unknown)));
}

#[test]
fn neither_package_nor_folder_is_unknown() {
    let seen = folder(&["readme.txt", "conf.lua"], file("version = \"11.3\""));
    assert_eq!(project_type("notes", &seen), Progress::Done(Ok(Project::Unknown)));
    let nothing = Snapshot { package: None, entries: Some(Vec::new()), config: None };
    assert_eq!(project_type("no/such/path", &nothing), Progress::Done(Ok(Project::Unknown)));
    assert_eq!(inspect("notes", &seen), (Ok(Project::Unknown), vec![Lookup::Entries]));
}

#[test]
fn package_with_empty_configuration_fails_as_empty() {
    let archive = package(&[("main.lua", b"print('hello')"), ("conf.lua", b"")]);
    let seen = Snapshot {
        package: Some(archive),
        entries: Some(Vec::new()),
        config: Some(Fetched::Missing),
    };
    assert_eq!(
        get_required_version("game.love", &seen),
        Progress::Done(Err(InspectionError::Read(ReadError::Empty)))
    );
    assert_eq!(
        project_type("game.love", &seen),
        Progress::Done(Err(InspectionError::Read(ReadError::Empty)))
    );
}

#[test]
fn package_without_version_is_passed_on() {
    let archive = || package(&[("main.lua", b"print('hello')"), ("conf.lua", b"-- nothing")]);
    let plain = Snapshot {
        package: Some(archive()),
        entries: Some(Vec::new()),
        config: Some(Fetched::Missing),
    };
    assert_eq!(project_type("game.love", &plain), Progress::Done(Ok(Project::Unknown)));
    assert_eq!(
        get_required_version("game.love", &plain),
        Progress::Done(Err(InspectionError::VersionNotDetermined))
    );
    assert_eq!(
        inspect("game.love", &plain),
        (Ok(Project::Unknown), vec![Lookup::Package, Lookup::Entries])
    );
}

#[test]
fn package_path_is_never_a_folder() {
    // A folder whose name ends like a package: it is read as a package, which
    // a folder is not.
    let named_like_a_package = Snapshot {
        package: Some(Fetched::Missing),
        entries: Some(names(&["main.lua", "conf.lua"])),
        config: Some(file("version = \"11.3\"")),
    };
    assert_eq!(
        project_type("game.love", &named_like_a_package),
        Progress::Done(Err(InspectionError::Read(ReadError::NotFound)))
    );
    // A package without a version at a path with the entry point under it: the
    // configuration file under the path is not looked at.
    let both = Snapshot {
        package: Some(package(&[("conf.lua", b"-- nothing")])),
        entries: Some(names(&["main.lua", "conf.lua"])),
        config: Some(file("version = \"11.3\"")),
    };
    assert_eq!(project_type("game.love", &both), Progress::Done(Ok(Project::Unknown)));
    assert_eq!(
        inspect("game.love", &both),
        (Ok(Project::Unknown), vec![Lookup::Package, Lookup::Entries])
    );
}

#[test]
fn package_that_cannot_be_read_fails() {
    let missing = Snapshot { package: Some(Fetched::Missing), entries: None, config: None };
    assert_eq!(
        project_type("game.love", &missing),
        Progress::Done(Err(InspectionError::Read(ReadError::NotFound)))
    );
    let no_archive =
        Snapshot { package: Some(file("version = '1.0'")), entries: None, config: None };
    assert_eq!(
        project_type("game.love", &no_archive),
        Progress::Done(Err(InspectionError::Read(ReadError::NotFound)))
    );
    let no_entry = Snapshot {
        package: Some(package(&[("main.lua", b"print('hello')")])),
        entries: None,
        config: None,
    };
    assert_eq!(
        project_type("game.love", &no_entry),
        Progress::Done(Err(InspectionError::Read(ReadError::NotFound)))
    );
    let no_text = Snapshot {
        package: Some(package(&[("conf.lua", &[0xff, 0xfe])])),
        entries: None,
        config: None,
    };
    assert_eq!(
        project_type("game.love", &no_text),
        Progress::Done(Err(InspectionError::Read(ReadError::Decode)))
    );
    assert_eq!(
        get_required_version("game.love", &no_text),
        Progress::Done(Err(InspectionError::Read(ReadError::Decode)))
    );
}

#[test]
fn folder_whose_configuration_cannot_be_read_fails() {
    let missing = folder(&["main.lua"], Fetched::Missing);
    assert_eq!(
        project_type("game", &missing),
        Progress::Done(Err(InspectionError::Read(ReadError::NotFound)))
    );
    assert_eq!(
        get_required_version("game", &missing),
        Progress::Done(Err(InspectionError::Read(ReadError::NotFound)))
    );
    let empty = folder(&["main.lua", "conf.lua"], Fetched::Bytes(Vec::new()));
    assert_eq!(
        project_type("game", &empty),
        Progress::Done(Err(InspectionError::Read(ReadError::Empty)))
    );
    assert_eq!(
        get_required_version("game", &empty),
        Progress::Done(Err(InspectionError::Read(ReadError::Empty)))
    );
    let no_text = folder(&["main.lua", "conf.lua"], Fetched::Bytes(vec![0xff]));
    assert_eq!(
        project_type("game", &no_text),
        Progress::Done(Err(InspectionError::Read(ReadError::Decode)))
    );
}

#[test]
fn required_version_does_not_ask_for_the_entry_point() {
    let seen = Snapshot { package: None, entries: None, config: Some(file("version = '0.9.1'")) };
    assert_eq!(get_required_version("game", &seen), Progress::Done(Ok(version("0.9.1"))));
    let without = folder(&["conf.lua"], file("version = '0.9.1'"));
    assert_eq!(get_required_version("game", &without), Progress::Done(Ok(version("0.9.1"))));
    assert_eq!(project_type("game", &without), Progress::Done(Ok(Project::Unknown)));
}

#[test]
fn inspection_asks_for_what_it_has_not_seen() {
    let nothing = Snapshot::new();
    assert_eq!(nothing, Snapshot { package: None, entries: None, config: None });
    assert_eq!(project_type("game.love", &nothing), Progress::Needs(Lookup::Package));
    assert_eq!(project_type("game", &nothing), Progress::Needs(Lookup::Entries));
    assert_eq!(get_required_version("game.love", &nothing), Progress::Needs(Lookup::Package));
    assert_eq!(get_required_version("game", &nothing), Progress::Needs(Lookup::Config));
    let listed = Snapshot { package: None, entries: Some(names(&["main.lua"])), config: None };
    assert_eq!(project_type("game", &listed), Progress::Needs(Lookup::Config));
    // What was not asked for is of no use.
    let other = Snapshot {
        package: Some(package(&[("conf.lua", b"version = '1.0'")])),
        entries: None,
        config: Some(file("version = '1.0'")),
    };
    assert_eq!(project_type("game", &other), Progress::Needs(Lookup::Entries));
    let unread = Snapshot {
        package: None,
        entries: Some(names(&["main.lua"])),
        config: Some(file("version = '1.0'")),
    };
    assert_eq!(project_type("game.love", &unread), Progress::Needs(Lookup::Package));
    assert_eq!(get_required_version("game.love", &unread), Progress::Needs(Lookup::Package));
}

#[test]
fn inspection_takes_its_looks_in_order() {
    let disk = Snapshot {
        package: Some(package(&[("conf.lua", b"version = \"0.10.2\"")])),
        entries: Some(names(&["main.lua", "conf.lua"])),
        config: Some(file("version = \"11.3\"")),
    };
    assert_eq!(
        inspect("game.love", &disk),
        (Ok(Project::File(version("0.10.2"))), vec![Lookup::Package])
    );
    assert_eq!(
        inspect("game", &disk),
        (Ok(Project::Folder(version("11.3"))), vec![Lookup::Entries, Lookup::Config])
    );
    let missing = Snapshot {
        package: Some(Fetched::Missing),
        entries: Some(Vec::new()),
        config: Some(Fetched::Missing),
    };
    assert_eq!(
        inspect("game.love", &missing),
        (Err(InspectionError::Read(ReadError::NotFound)), vec![Lookup::Package])
    );
    assert_eq!(inspect("game", &missing), (Ok(Project::Unknown), vec![Lookup::Entries]));
}

#[test]
fn looking_as_asked_gives_the_result_of_the_whole_disk() {
    let disks = [
        Snapshot {
            package: Some(package(&[("conf.lua", b"version = \"0.10.2\"")])),
            entries: Some(names(&["main.lua", "conf.lua"])),
            config: Some(file("version = \"11.3\"")),
        },
        Snapshot {
            package: Some(package(&[("conf.lua", b"-- nothing")])),
            entries: Some(names(&["main.lua"])),
            config: Some(file("-- nothing")),
        },
        Snapshot {
            package: Some(Fetched::Missing),
            entries: Some(Vec::new()),
            config: Some(Fetched::Missing),
        },
        Snapshot {
            package: Some(file("no package")),
            entries: Some(names(&["main.lua"])),
            config: Some(Fetched::Bytes(Vec::new())),
        },
    ];
    for disk in &disks {
        for path in ["game.love", "game", "", "love", "game.love.zip"] {
            let whole = match project_type(path, disk) {
                Progress::Done(result) => result,
                Progress::Needs(lookup) => panic!("asked for {:?} with all seen", lookup),
            };
            let (result, asked) = inspect(path, disk);
            assert_eq!(result, whole);
            assert!(asked.len() <= 2);
        }
    }
}

#[test]
fn result_stands_when_more_is_seen() {
    let listed = Snapshot { package: None, entries: Some(names(&["readme.txt"])), config: None };
    assert_eq!(project_type("game", &listed), Progress::Done(Ok(Project::Unknown)));
    let later = Snapshot {
        package: Some(package(&[("conf.lua", b"version = '1.0'")])),
        entries: Some(names(&["readme.txt"])),
        config: Some(file("version = '2.0'")),
    };
    assert_eq!(project_type("game", &later), Progress::Done(Ok(Project::Unknown)));

    let read = Snapshot {
        package: Some(package(&[("conf.lua", b"version = '1.0'")])),
        entries: None,
        config: None,
    };
    assert_eq!(project_type("game.love", &read), Progress::Done(Ok(Project::File(version("1.0")))));
    assert_eq!(get_required_version("game.love", &read), Progress::Done(Ok(version("1.0"))));
    assert_eq!(
        project_type("game.love", &later),
        Progress::Done(Ok(Project::File(version("1.0"))))
    );
    assert_eq!(get_required_version("game.love", &later), Progress::Done(Ok(version("1.0"))));
}

#[test]
fn same_disk_gives_the_same_result() {
    let seen = folder(&["main.lua", "conf.lua"], file("version = \"11.3\""));
    let again = folder(&["main.lua", "conf.lua"], file("version = \"11.3\""));
    assert_eq!(project_type("game", &seen), project_type("game", &seen));
    assert_eq!(project_type("game", &seen), project_type("game", &again));
    assert_eq!(get_required_version("game", &seen), get_required_version("game", &again));
    let disk = Snapshot {
        package: Some(package(&[("conf.lua", b"version = \"0.10.2\"")])),
        entries: Some(Vec::new()),
        config: Some(Fetched::Missing),
    };
    assert_eq!(inspect("game.love", &disk), inspect("game.love", &disk));
}

#[test]
fn kind_holds_the_required_version() {
    let disk = Snapshot {
        package: Some(package(&[("conf.lua", b"version = \"0.10.2\"")])),
        entries: Some(names(&["main.lua", "conf.lua"])),
        config: Some(file("version = \"11.3\"")),
    };
    for path in ["game.love", "game"] {
        let required = match get_required_version(path, &disk) {
            Progress::Done(Ok(required)) => required,
            other => panic!("no version: {:?}", other),
        };
        match project_type(path, &disk) {
            Progress::Done(Ok(Project::File(found))) => assert_eq!(found, required),
            Progress::Done(Ok(Project::Folder(found))) => assert_eq!(found, required),
            other => panic!("no kind: {:?}", other),
        }
    }
}

#[test]
fn configuration_is_searched_for_the_version() {
    assert_eq!(CONFIG_FILE, "conf.lua");
    assert_eq!(find_version("game", &file("version = '11.3'")), Ok(Some(version("11.3"))));
    assert_eq!(find_version("game", &file("-- nothing")), Ok(None));
    assert_eq!(find_version("game", &Fetched::Missing), Err(ReadError::NotFound));
    assert_eq!(find_version("game", &Fetched::Bytes(Vec::new())), Err(ReadError::Empty));
    assert_eq!(find_version("game", &Fetched::Bytes(vec![0xff])), Err(ReadError::Decode));
    let archive = package(&[("conf.lua", b"version = '0.10.2'"), ("other.lua", b"version = '9'")]);
    assert_eq!(find_version("game.love", &archive), Ok(Some(version("0.10.2"))));
    assert_eq!(find_version("game.love", &file("version = '11.3'")), Err(ReadError::NotFound));
}

#[test]
fn search_without_version_fails_where_one_is_required() {
    assert_eq!(required_version(Ok(Some(version("11.3")))), Ok(version("11.3")));
    assert_eq!(required_version(Ok(None)), Err(InspectionError::VersionNotDetermined));
    for error in [ReadError::NotFound, ReadError::Empty, ReadError::Decode] {
        assert_eq!(required_version(Err(error)), Err(InspectionError::Read(error)));
    }
}

#[test]
fn search_without_version_passes_the_project_on() {
    assert_eq!(judge_package(Ok(Some(version("11.3")))), Some(Ok(Project::File(version("11.3")))));
    assert_eq!(judge_folder(Ok(Some(version("11.3")))), Some(Ok(Project::Folder(version("11.3")))));
    assert_eq!(judge_package(Ok(None)), None);
    assert_eq!(judge_folder(Ok(None)), None);
    for error in [ReadError::NotFound, ReadError::Empty, ReadError::Decode] {
        assert_eq!(judge_package(Err(error)), Some(Err(InspectionError::Read(error))));
        assert_eq!(judge_folder(Err(error)), Some(Err(InspectionError::Read(error))));
    }
}
