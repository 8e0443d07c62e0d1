use spx::map::LookupMap;
use spx::FileMap;
use storyboard::archive::builder::Builder;
use storyboard::archive::{ArchiveMap, SpxStorageSystem, StorageError};

/// A file map that can be told apart from others by its length.
fn file_map(entries: usize) -> FileMap {
    let lookup: &'static LookupMap = Box::leak(Box::new(LookupMap {
        key: 0,
        disps: Box::leak(vec![(0u32, 0u32); entries].into_boxed_slice()),
        values: Box::leak(vec![(0u32, 0u64); entries].into_boxed_slice()),
    }));
    FileMap::from_maps(lookup, lookup)
}

#[test]
fn empty_map_finds_nothing() {
    let map = ArchiveMap::new();
    assert!(map.get("resources.spx").is_none());
}

#[test]
fn inserted_archive_is_found() {
    let mut map = ArchiveMap::new();
    map.insert("resources.spx", file_map(3));
    assert_eq!(map.get("resources.spx").map(|m| m.len()), Some(3));
    assert!(map.get("other.spx").is_none());
}

#[test]
fn later_insert_replaces_earlier() {
    let mut map = ArchiveMap::new();
    map.insert("a.spx", file_map(1));
    map.insert("b.spx", file_map(2));
    map.insert("a.spx", file_map(5));
    assert_eq!(map.get("a.spx").map(|m| m.len()), Some(5));
    assert_eq!(map.get("b.spx").map(|m| m.len()), Some(2));
}

#[test]
fn paths_with_same_components_are_one_key() {
    let mut map = ArchiveMap::new();
    map.insert("packs/a.spx", file_map(4));
    assert_eq!(map.get("packs//a.spx").map(|m| m.len()), Some(4));
    assert_eq!(map.get("packs/a.spx/").map(|m| m.len()), Some(4));
    assert!(map.get("packs/b.spx").is_none());
    assert!(map.get("packs").is_none());
}

#[test]
fn components_key_is_exact() {
    let mut map = ArchiveMap::new();
    map.insert_components(vec!["packs".to_string(), "a.spx".to_string()], file_map(6));
    let key = vec!["packs".to_string(), "a.spx".to_string()];
    assert_eq!(map.get_components(&key).map(|m| m.len()), Some(6));
    assert_eq!(map.get("packs/a.spx").map(|m| m.len()), Some(6));
    let other = vec!["packs".to_string()];
    assert!(map.get_components(&other).is_none());
}

#[test]
fn cloned_map_holds_the_same_archives() {
    let mut map = ArchiveMap::new();
    map.insert("a.spx", file_map(1));
    map.insert("b.spx", file_map(2));
    let copy = map.clone();
    assert_eq!(copy.get("a.spx").map(|m| m.len()), Some(1));
    assert_eq!(copy.get("b.spx").map(|m| m.len()), Some(2));
}

#[test]
fn new_storage_has_root_and_no_archive() {
    let storage = SpxStorageSystem::new("/opt/app".to_string());
    assert_eq!(storage.root(), "/opt/app");
    assert!(storage.archive("resources.spx").is_err());
}

#[test]
fn archive_lies_under_the_root() {
    let mut map = ArchiveMap::new();
    map.insert("resources.spx", file_map(7));
    let storage = SpxStorageSystem::from_map("/opt/app".to_string(), map);
    let location = storage.archive("resources.spx").ok().unwrap();
    assert_eq!(location.file_map.len(), 7);
    assert_eq!(location.file_path, "/opt/app/resources.spx");
}

#[test]
fn absolute_archive_path_replaces_the_root() {
    let mut map = ArchiveMap::new();
    map.insert("/data/x.spx", file_map(1));
    let storage = SpxStorageSystem::from_map("/opt/app".to_string(), map);
    let location = storage.archive("/data/x.spx").ok().unwrap();
    assert_eq!(location.file_path, "/data/x.spx");
}

#[test]
fn unregistered_archive_is_an_error() {
    let storage = Builder::new().add("resources.spx".to_string(), file_map(1)).build("dir".to_string());
    match storage.archive("missing.spx") {
        Err(StorageError::ArchiveNotRegistered(path)) => assert_eq!(path, "missing.spx"),
        Ok(_) => panic!("an unregistered archive was found"),
    }
}

#[test]
fn storage_error_message() {
    let error = StorageError::ArchiveNotRegistered("missing.spx".to_string());
    assert_eq!(error.message(), "Archive `missing.spx` is not registered");
}

#[test]
fn builder_registers_added_archives() {
    let builder = Builder::new()
        .add("resources.spx".to_string(), file_map(2))
        .add("extra/more.spx".to_string(), file_map(3));
    let copy = builder.clone();
    let storage = builder.build("base".to_string());
    assert_eq!(storage.root(), "base");
    let location = storage.archive("resources.spx").ok().unwrap();
    assert_eq!(location.file_map.len(), 2);
    assert_eq!(location.file_path, "base/resources.spx");
    let location = storage.archive("extra/more.spx").ok().unwrap();
    assert_eq!(location.file_map.len(), 3);
    let storage = copy.build(String::new());
    let location = storage.archive("resources.spx").ok().unwrap();
    assert_eq!(location.file_path, "resources.spx");
}

#[test]
fn builder_add_replaces_same_path() {
    let storage = Builder::new()
        .add("resources.spx".to_string(), file_map(2))
        .add("./resources.spx".to_string(), file_map(8))
        .add("resources.spx".to_string(), file_map(9))
        .build("r".to_string());
    assert_eq!(storage.archive("resources.spx").ok().unwrap().file_map.len(), 9);
    assert_eq!(storage.archive("./resources.spx").ok().unwrap().file_map.len(), 8);
}
