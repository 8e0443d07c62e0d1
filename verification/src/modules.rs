//! How the runtime finds the source of a module: by the scheme of its
//! specifier, and for `spx:` specifiers by the archive named in the host
//! and the file named in the path.

use std::sync::Arc;

use relative_path::RelativePath;
use vstd::prelude::*;

use crate::archive::SpxStorageSystem;

verus! {

/// The index of the last `c` in `s`, or -1 if there is none.
pub open spec fn last_index_of(s: Seq<char>, c: char) -> int
    decreases s.len(),
{
    if s.len() == 0 {
        -1
    } else if s.last() == c {
        s.len() - 1
    } else {
        last_index_of(s.drop_last(), c)
    }
}

/// The last index of `c` lies within `s`, and before its last character
/// when that character is not `c`.
pub proof fn lemma_last_index_bounds(s: Seq<char>, c: char)
    ensures
        -1 <= last_index_of(s, c) < s.len(),
        s.len() > 0 && s.last() != c ==> last_index_of(s, c) < s.len() - 1,
    decreases s.len(),
{
    if s.len() > 0 && s.last() != c {
        lemma_last_index_bounds(s.drop_last(), c);
    }
}

/// The file name of the relative path `path`: its last `/`-separated
/// component that is not `.` (empty components and trailing `/` count for
/// nothing); none if there is no component or that component is `..`.
pub open spec fn relative_file_name(path: Seq<char>) -> Option<Seq<char>>
    decreases path.len(),
{
    if path.len() == 0 {
        None
    } else if path.last() == '/' {
        relative_file_name(path.drop_last())
    } else {
        let cut = last_index_of(path, '/');
        proof {
            lemma_last_index_bounds(path, '/');
        }
        let name = path.subrange(cut + 1, path.len() as int);
        if name == "."@ {
            relative_file_name(path.subrange(0, cut + 1))
        } else if name == ".."@ {
            None
        } else {
            Some(name)
        }
    }
}

/// The extension of the file name of the relative path `path`: the text
/// after its last `.`, if there is a `.` that is not its first character.
pub open spec fn relative_extension(path: Seq<char>) -> Option<Seq<char>> {
    match relative_file_name(path) {
        Some(name) => {
            let dot = last_index_of(name, '.');
            if dot > 0 {
                Some(name.subrange(dot + 1, name.len() as int))
            } else {
                None
            }
        },
        None => None,
    }
}

/// `s` in lower case, as `str::to_lowercase` maps it.
pub uninterp spec fn lowercase(s: Seq<char>) -> Seq<char>;

/// `relative_path::RelativePath::extension` of `file_name`: the file name is
/// the last component that is not `.` (none if it is `..`), and the
/// extension is what follows its last `.` unless that `.` starts it.
/// Claimed: the result is [`relative_extension`] of `file_name`.
#[verifier::external_body]
fn extension_of(file_name: &str) -> (extension: Option<&str>)
    ensures
        extension is Some <==> relative_extension(file_name@) is Some,
        extension matches Some(e) ==> Some(e@) == relative_extension(file_name@),
{
    RelativePath::new(file_name).extension()
}

/// `str::to_lowercase`. Claimed: the result is [`lowercase`] of `s`.
#[verifier::external_body]
fn to_lowercase(s: &str) -> (lower: String)
    ensures
        lower@ == lowercase(s@),
{
    s.to_lowercase()
}

/// The kinds of module source the runtime tells apart.
#[derive(Debug, Clone, Copy, PartialEq, Eq, Structural)]
pub enum ModuleKind {
    JavaScript,
    Json,
}

/// The kind of a module whose file name has the extension `extension`,
/// already in lower case: JSON for `json`, JavaScript otherwise.
pub open spec fn kind_for_lowercase_extension(extension: Option<Seq<char>>) -> ModuleKind {
    match extension {
        Some(e) => if e == "json"@ {
            ModuleKind::Json
        } else {
            ModuleKind::JavaScript
        },
        None => ModuleKind::JavaScript,
    }
}

/// The kind of a module in the file `file_name`, as [`type_from_file_name`]
/// decides it.
pub open spec fn kind_for_file_name(file_name: Seq<char>) -> ModuleKind {
    kind_for_lowercase_extension(
        match relative_extension(file_name) {
            Some(e) => Some(lowercase(e)),
            None => None,
        },
    )
}

/// Only the extension `json` makes a JSON module: every other extension,
/// and no extension, makes a JavaScript module.
pub proof fn lemma_only_json_extension_is_json(extension: Option<Seq<char>>)
    ensures
        (kind_for_lowercase_extension(extension) == ModuleKind::Json) == (extension == Some(
            "json"@,
        )),
        (kind_for_lowercase_extension(extension) == ModuleKind::JavaScript) == (extension != Some(
            "json"@,
        )),
{
}

/// A file is a JSON module exactly when the extension of its file name is
/// `json` in lower case; every other file is a JavaScript module.
pub proof fn lemma_json_file_names(file_name: Seq<char>)
    ensures
        (kind_for_file_name(file_name) == ModuleKind::Json) == (relative_extension(file_name) matches Some(e)
            && lowercase(e) == "json"@),
        (kind_for_file_name(file_name) == ModuleKind::JavaScript) == !(relative_extension(
            file_name,
        ) matches Some(e) && lowercase(e) == "json"@),
{
}

/// The kind of a module whose file name has the lower-case extension
/// `extension` (`None`: no extension).
pub fn kind_for_extension(extension: Option<&str>) -> (kind: ModuleKind)
    ensures
        kind == kind_for_lowercase_extension(
            match extension {
                Some(e) => Some(e@),
                None => None,
            },
        ),
        (kind == ModuleKind::Json) == (extension matches Some(e) && e@ == "json"@),
        (kind == ModuleKind::JavaScript) == !(extension matches Some(e) && e@ == "json"@),
{
    match extension {
        Some(e) => {
            if String::from_str(e) == String::from_str("json") {
                ModuleKind::Json
            } else {
                ModuleKind::JavaScript
            }
        },
        None => ModuleKind::JavaScript,
    }
}

/// The kind of a module in the file `file_name`: JSON when the extension of
/// its file name is `json` in any case, JavaScript otherwise.
pub fn type_from_file_name(file_name: &str) -> (kind: ModuleKind)
    ensures
        kind == kind_for_file_name(file_name@),
        (kind == ModuleKind::Json) == (relative_extension(file_name@) matches Some(e) && lowercase(e)
            == "json"@),
        (kind == ModuleKind::JavaScript) == !(relative_extension(file_name@) matches Some(e)
            && lowercase(e) == "json"@),
{
    match extension_of(file_name) {
        Some(extension) => {
            let ext = to_lowercase(extension);
            kind_for_extension(Some(ext.as_str()))
        },
        None => kind_for_extension(None),
    }
}

/// Where the source of a module comes from, by the scheme of its specifier.
#[derive(Debug, Clone, Copy, PartialEq, Eq, Structural)]
pub enum LoadRoute {
    /// `file:` specifiers: the file system.
    File,
    /// `spx:` specifiers: a registered spx archive.
    Spx,
    /// Any other scheme: none.
    Unknown,
}

/// The route for a specifier with the scheme `scheme`.
pub fn route_for_scheme(scheme: &str) -> (route: LoadRoute)
    ensures
        route == (if scheme@ == "file"@ {
            LoadRoute::File
        } else if scheme@ == "spx"@ {
            LoadRoute::Spx
        } else {
            LoadRoute::Unknown
        }),
{
    let scheme = String::from_str(scheme);
    if scheme == String::from_str("file") {
        LoadRoute::File
    } else if scheme == String::from_str("spx") {
        LoadRoute::Spx
    } else {
        LoadRoute::Unknown
    }
}

/// Why a module could not be loaded.
#[derive(Debug)]
pub enum LoadError {
    /// An `spx:` specifier without a host naming the archive.
    ArchiveNameMissing,
    /// A specifier with a scheme no route serves.
    UnknownScheme(String),
}

impl LoadError {
    /// The text of the error.
    pub fn message(&self) -> (text: String)
        ensures
            match self {
                LoadError::ArchiveNameMissing => text@ == "Spx archive name is not specified"@,
                LoadError::UnknownScheme(scheme) => text@ == "Unknown scheme "@ + scheme@,
            },
    {
        match self {
            LoadError::ArchiveNameMissing => String::from_str("Spx archive name is not specified"),
            LoadError::UnknownScheme(scheme) => {
                let mut text = String::from_str("Unknown scheme ");
                text.append(scheme.as_str());
                text
            },
        }
    }
}

/// The error for a specifier whose scheme `scheme` no route serves.
pub fn unknown_scheme(scheme: &str) -> (error: LoadError)
    ensures
        error matches LoadError::UnknownScheme(s) && s@ == scheme@,
{
    LoadError::UnknownScheme(String::from_str(scheme))
}

/// A module to read from an spx archive.
#[derive(Debug)]
pub struct SpxModuleRequest {
    /// The path of the archive, from the host of the specifier.
    pub archive: String,
    /// The file in the archive, from the path of the specifier.
    pub file_name: String,
    /// The kind of module the file holds.
    pub module_type: ModuleKind,
}

/// The path of a specifier without its leading character (`/`), if any.
pub open spec fn file_name_of_path(path: Seq<char>) -> Seq<char> {
    if path.len() == 0 {
        path
    } else {
        path.subrange(1, path.len() as int)
    }
}

/// What to read for an `spx:` specifier whose host is `domain` and whose
/// path is `path`: the archive named by the host and the file named by the
/// path after its first character. Without a host there is no archive.
pub fn spx_module_request(domain: Option<&str>, path: &str) -> (request: Result<
    SpxModuleRequest,
    LoadError,
>)
    requires
        path@.len() > 0 ==> path@[0] < '\u{80}',
    ensures
        match request {
            Ok(req) => {
                &&& domain matches Some(d) && req.archive@ == d@
                &&& req.file_name@ == file_name_of_path(path@)
                &&& req.module_type == kind_for_file_name(file_name_of_path(path@))
                &&& (req.module_type == ModuleKind::Json) == (relative_extension(
                    file_name_of_path(path@),
                ) matches Some(e) && lowercase(e) == "json"@)
            },
            Err(e) => domain is None && e is ArchiveNameMissing,
        },
{
    let archive = match domain {
        Some(d) => String::from_str(d),
        None => {
            return Err(LoadError::ArchiveNameMissing);
        },
    };
    let length = path.unicode_len();
    let file_name = if length == 0 {
        String::from_str(path)
    } else {
        String::from_str(path.substring_char(1, length))
    };
    let module_type = type_from_file_name(file_name.as_str());
    Ok(SpxModuleRequest { archive, file_name, module_type })
}

/// `Arc::clone`: another pointer to the same allocation. Claimed: it
/// points at the same value.
#[verifier::external_body]
fn share<T>(shared: &Arc<T>) -> (other: Arc<T>)
    ensures
        *other == **shared,
{
    Arc::clone(shared)
}

/// The module loader of the runtime: serves `spx:` specifiers from the
/// archives of a storage system.
#[derive(Debug)]
pub struct ModuleLoader {
    storage: Arc<SpxStorageSystem>,
}

impl ModuleLoader {
    /// The storage system the loader reads archives from.
    pub closed spec fn storage_system(&self) -> SpxStorageSystem {
        *self.storage
    }

    /// A loader reading archives from `storage`.
    pub fn new(storage: Arc<SpxStorageSystem>) -> (this: Self)
        ensures
            this.storage_system() == *storage,
    {
        Self { storage }
    }

    /// The storage system the loader reads archives from.
    pub fn storage(&self) -> (storage: &SpxStorageSystem)
        ensures
            *storage == self.storage_system(),
    {
        &self.storage
    }

    /// Another handle on the storage system the loader reads archives from,
    /// for work that outlives the borrow of the loader.
    pub fn storage_handle(&self) -> (storage: Arc<SpxStorageSystem>)
        ensures
            *storage == self.storage_system(),
    {
        share(&self.storage)
    }
}

} // verus!
