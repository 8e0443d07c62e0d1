use std::sync::Arc;

use storyboard::archive::SpxStorageSystem;
use storyboard::modules::{
    kind_for_extension, route_for_scheme, spx_module_request, type_from_file_name, unknown_scheme,
    LoadError, LoadRoute, ModuleKind, ModuleLoader,
};

#[test]
fn json_files_are_json_modules() {
    assert_eq!(type_from_file_name("data.json"), ModuleKind::Json);
    assert_eq!(type_from_file_name("dir/config.json"), ModuleKind::Json);
}

#[test]
fn extension_case_does_not_matter() {
    assert_eq!(type_from_file_name("DATA.JSON"), ModuleKind::Json);
    assert_eq!(type_from_file_name("data.Json"), ModuleKind::Json);
}

#[test]
fn other_files_are_javascript_modules() {
    assert_eq!(type_from_file_name("main.js"), ModuleKind::JavaScript);
    assert_eq!(type_from_file_name("main"), ModuleKind::JavaScript);
    assert_eq!(type_from_file_name(""), ModuleKind::JavaScript);
    assert_eq!(type_from_file_name("json"), ModuleKind::JavaScript);
    assert_eq!(type_from_file_name("data.jsonc"), ModuleKind::JavaScript);
    assert_eq!(type_from_file_name(".json"), ModuleKind::JavaScript);
    assert_eq!(type_from_file_name("json.d/main.ts"), ModuleKind::JavaScript);
}

#[test]
fn kind_by_lowercase_extension() {
    assert_eq!(kind_for_extension(Some("json")), ModuleKind::Json);
    assert_eq!(kind_for_extension(Some("JSON")), ModuleKind::JavaScript);
    assert_eq!(kind_for_extension(Some("js")), ModuleKind::JavaScript);
    assert_eq!(kind_for_extension(None), ModuleKind::JavaScript);
}

#[test]
fn schemes_route_to_their_loader() {
    assert_eq!(route_for_scheme("file"), LoadRoute::File);
    assert_eq!(route_for_scheme("spx"), LoadRoute::Spx);
    assert_eq!(route_for_scheme("https"), LoadRoute::Unknown);
    assert_eq!(route_for_scheme("SPX"), LoadRoute::Unknown);
    assert_eq!(route_for_scheme(""), LoadRoute::Unknown);
}

#[test]
fn load_error_messages() {
    assert_eq!(LoadError::ArchiveNameMissing.message(), "Spx archive name is not specified");
    assert_eq!(unknown_scheme("https").message(), "Unknown scheme https");
}

#[test]
fn spx_request_names_archive_and_file() {
    let request = spx_module_request(Some("resources.spx"), "/main.js").ok().unwrap();
    assert_eq!(request.archive, "resources.spx");
    assert_eq!(request.file_name, "main.js");
    assert_eq!(request.module_type, ModuleKind::JavaScript);
}

#[test]
fn spx_request_reads_module_kind_from_file() {
    let request = spx_module_request(Some("resources.spx"), "/data/strings.JSON").ok().unwrap();
    assert_eq!(request.file_name, "data/strings.JSON");
    assert_eq!(request.module_type, ModuleKind::Json);
}

#[test]
fn spx_request_with_empty_path() {
    let request = spx_module_request(Some("resources.spx"), "").ok().unwrap();
    assert_eq!(request.file_name, "");
    assert_eq!(request.module_type, ModuleKind::JavaScript);
}

#[test]
fn spx_request_without_archive_fails() {
    match spx_module_request(None, "/main.js") {
        Err(LoadError::ArchiveNameMissing) => {}
        _ => panic!("a request without an archive name went through"),
    }
}

#[test]
fn loader_reads_from_its_storage() {
    let storage = Arc::new(SpxStorageSystem::new("root".to_string()));
    let loader = ModuleLoader::new(storage);
    assert_eq!(loader.storage().root(), "root");
    let handle = loader.storage_handle();
    assert_eq!(handle.root(), "root");
}

#[test]
fn file_name_is_last_real_component() {
    assert_eq!(type_from_file_name("dir/data.json/"), ModuleKind::Json);
    assert_eq!(type_from_file_name("dir/data.json/./"), ModuleKind::Json);
    assert_eq!(type_from_file_name("x/../y.json"), ModuleKind::Json);
    assert_eq!(type_from_file_name("data.json/.."), ModuleKind::JavaScript);
    assert_eq!(type_from_file_name("a/.json"), ModuleKind::JavaScript);
    assert_eq!(type_from_file_name("archive..json"), ModuleKind::Json);
    assert_eq!(type_from_file_name("data.json.js"), ModuleKind::JavaScript);
}
