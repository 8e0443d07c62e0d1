//! Registers archives one by one, then makes the storage system.

use spx::FileMap;
use vstd::prelude::*;

use super::paths::path_components;
use super::{ArchiveMap, SpxStorageSystem};

verus! {

/// Collects the archives of a storage system before it is made.
#[derive(Debug)]
pub struct Builder {
    map: ArchiveMap,
}

impl Builder {
    /// The archives registered so far, by the components of their path.
    pub closed spec fn archives(&self) -> Map<Seq<Seq<char>>, FileMap> {
        self.map@
    }

    /// A builder with no archive registered.
    pub fn new() -> (this: Self)
        ensures
            this.archives() == Map::<Seq<Seq<char>>, FileMap>::empty(),
    {
        Self { map: ArchiveMap::new() }
    }

    /// Registers `map` as the file map of the archive at `path`, in place of
    /// one registered at a path with the same components.
    pub fn add(self, path: String, map: FileMap) -> (this: Self)
        ensures
            this.archives() == self.archives().insert(path_components(path@), map),
            this.archives() == after_add(self.archives(), path@, map),
    {
        let mut this = self;
        this.map.insert(path.as_str(), map);
        this
    }

    /// The storage system under `path` with the registered archives.
    pub fn build(self, path: String) -> (storage: SpxStorageSystem)
        ensures
            storage.root_path() == path@,
            storage.archives() == self.archives(),
    {
        SpxStorageSystem::from_map(path, self.map)
    }
}

impl Clone for Builder {
    /// A builder with the same archives registered.
    fn clone(&self) -> (copy: Self)
        ensures
            copy.archives() == self.archives(),
    {
        Self { map: self.map.clone() }
    }
}

/// The archives after registering `map` for the archive at `path`.
pub open spec fn after_add(
    archives: Map<Seq<Seq<char>>, FileMap>,
    path: Seq<char>,
    map: FileMap,
) -> Map<Seq<Seq<char>>, FileMap> {
    archives.insert(path_components(path), map)
}

/// The archives after registering each of `adds` in order.
pub open spec fn after_adds(
    archives: Map<Seq<Seq<char>>, FileMap>,
    adds: Seq<(Seq<char>, FileMap)>,
) -> Map<Seq<Seq<char>>, FileMap>
    decreases adds.len(),
{
    if adds.len() == 0 {
        archives
    } else {
        after_add(after_adds(archives, adds.drop_last()), adds.last().0, adds.last().1)
    }
}

/// The file map of the last of `adds` whose path has the components `key`.
pub open spec fn last_added(adds: Seq<(Seq<char>, FileMap)>, key: Seq<Seq<char>>) -> Option<FileMap>
    decreases adds.len(),
{
    if adds.len() == 0 {
        None
    } else if path_components(adds.last().0) == key {
        Some(adds.last().1)
    } else {
        last_added(adds.drop_last(), key)
    }
}

/// After any number of `add` calls, the archive registered under a path is
/// the one added last at a path with the same components; a path none of
/// them names keeps what was registered before.
pub proof fn lemma_last_add_wins(
    archives: Map<Seq<Seq<char>>, FileMap>,
    adds: Seq<(Seq<char>, FileMap)>,
    key: Seq<Seq<char>>,
)
    ensures
        after_adds(archives, adds).contains_key(key) == (last_added(adds, key) is Some
            || archives.contains_key(key)),
        last_added(adds, key) matches Some(m) ==> after_adds(archives, adds)[key] == m,
        last_added(adds, key) is None ==> after_adds(archives, adds)[key] == archives[key],
    decreases adds.len(),
{
    if adds.len() > 0 {
        lemma_last_add_wins(archives, adds.drop_last(), key);
    }
}

} // verus!
