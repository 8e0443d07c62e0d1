//! Where the spx archives of the application live: a root directory and,
//! for each archive path under it, the file map that was built for it.
//!
//! Opening the archive file is I/O and stays with the caller; this module
//! decides whether an archive is registered, which file map goes with it
//! and which file holds it.

pub mod builder;
pub mod paths;

use spx::FileMap;
use vstd::prelude::*;

use self::paths::{components_of, join_path, joined_path, path_components};

verus! {

#[verifier::external_type_specification]
#[verifier::external_body]
pub struct ExFileMap(spx::FileMap);

/// Whether two component lists are the same, string by string.
fn same_components(a: &Vec<String>, b: &Vec<String>) -> (same: bool)
    ensures
        same == (a.deep_view() == b.deep_view()),
{
    if a.len() != b.len() {
        assert(a.deep_view().len() != b.deep_view().len());
        return false;
    }
    let mut i: usize = 0;
    while i < a.len()
        invariant
            a.len() == b.len(),
            i <= a.len(),
            forall|j: int| 0 <= j < i ==> a@[j]@ == b@[j]@,
        decreases a.len() - i,
    {
        if !(a[i] == b[i]) {
            assert(a.deep_view()[i as int] != b.deep_view()[i as int]);
            return false;
        }
        i = i + 1;
    }
    assert(a.deep_view() =~= b.deep_view());
    true
}

/// The key stored in entry `i` of `entries`.
pub open spec fn entry_key(entries: Seq<(Vec<String>, FileMap)>, i: int) -> Seq<Seq<char>> {
    entries[i].0.deep_view()
}

/// No key is stored twice in `entries`.
pub open spec fn keys_unique(entries: Seq<(Vec<String>, FileMap)>) -> bool {
    forall|i: int, j: int|
        0 <= i < j < entries.len() ==> #[trigger] entry_key(entries, i) != #[trigger] entry_key(
            entries,
            j,
        )
}

/// `entries` as a map from path components to file map.
pub open spec fn entries_map(entries: Seq<(Vec<String>, FileMap)>) -> Map<Seq<Seq<char>>, FileMap> {
    Map::new(
        |k: Seq<Seq<char>>| exists|i: int| 0 <= i < entries.len() && entry_key(entries, i) == k,
        |k: Seq<Seq<char>>|
            entries[choose|i: int| 0 <= i < entries.len() && entry_key(entries, i) == k].1,
    )
}

proof fn lemma_entry_in_map(entries: Seq<(Vec<String>, FileMap)>, i: int)
    requires
        keys_unique(entries),
        0 <= i < entries.len(),
    ensures
        entries_map(entries).contains_key(entry_key(entries, i)),
        entries_map(entries)[entry_key(entries, i)] == entries[i].1,
{
    let k = entry_key(entries, i);
    assert(entries_map(entries).dom().contains(k));
    let j = choose|j: int| 0 <= j < entries.len() && entry_key(entries, j) == k;
    if j != i {
        if j < i {
            assert(entry_key(entries, j) != entry_key(entries, i));
        } else {
            assert(entry_key(entries, i) != entry_key(entries, j));
        }
    }
}

/// Replacing the value of the entry whose key is `k` stores the new value
/// under `k` and keeps the other keys.
proof fn lemma_map_after_update(
    old_entries: Seq<(Vec<String>, FileMap)>,
    i: int,
    key: Vec<String>,
    map: FileMap,
)
    requires
        keys_unique(old_entries),
        0 <= i < old_entries.len(),
        entry_key(old_entries, i) == key.deep_view(),
    ensures
        keys_unique(old_entries.update(i, (key, map))),
        entries_map(old_entries.update(i, (key, map))) == entries_map(old_entries).insert(
            key.deep_view(),
            map,
        ),
{
    let new_entries = old_entries.update(i, (key, map));
    let k = key.deep_view();
    let n = old_entries.len();
    assert forall|j: int| 0 <= j < n implies #[trigger] entry_key(new_entries, j) == entry_key(
        old_entries,
        j,
    ) by {}
    assert(keys_unique(new_entries));
    let m = entries_map(new_entries);
    let expected = entries_map(old_entries).insert(k, map);
    assert forall|q: Seq<Seq<char>>| m.contains_key(q) <==> expected.contains_key(q) by {
        if m.contains_key(q) {
            let j = choose|j: int| 0 <= j < n && entry_key(new_entries, j) == q;
            assert(entry_key(old_entries, j) == q);
        }
        if entries_map(old_entries).contains_key(q) {
            let j = choose|j: int| 0 <= j < n && entry_key(old_entries, j) == q;
            assert(entry_key(new_entries, j) == q);
        }
        if q == k {
            assert(entry_key(new_entries, i) == q);
        }
    }
    assert forall|q: Seq<Seq<char>>| #[trigger] m.contains_key(q) implies m[q] == expected[q] by {
        let j = choose|j: int| 0 <= j < n && entry_key(new_entries, j) == q;
        lemma_entry_in_map(new_entries, j);
        if j != i {
            assert(entry_key(old_entries, j) == q);
            lemma_entry_in_map(old_entries, j);
        }
    }
    assert(m =~= expected);
}

/// Adding an entry under a new key `k` stores it under `k` and keeps the
/// other keys.
proof fn lemma_map_after_push(old_entries: Seq<(Vec<String>, FileMap)>, key: Vec<String>, map: FileMap)
    requires
        keys_unique(old_entries),
        forall|i: int| 0 <= i < old_entries.len() ==> entry_key(old_entries, i) != key.deep_view(),
    ensures
        keys_unique(old_entries.push((key, map))),
        entries_map(old_entries.push((key, map))) == entries_map(old_entries).insert(
            key.deep_view(),
            map,
        ),
{
    let new_entries = old_entries.push((key, map));
    let k = key.deep_view();
    let n = old_entries.len() as int;
    assert forall|j: int| 0 <= j < n implies #[trigger] entry_key(new_entries, j) == entry_key(
        old_entries,
        j,
    ) by {}
    assert(entry_key(new_entries, n) == k);
    assert forall|a: int, b: int| 0 <= a < b < new_entries.len() implies #[trigger] entry_key(
        new_entries,
        a,
    ) != #[trigger] entry_key(new_entries, b) by {
        assert(entry_key(new_entries, a) == entry_key(old_entries, a));
        if b < n {
            assert(entry_key(new_entries, b) == entry_key(old_entries, b));
        }
    }
    let m = entries_map(new_entries);
    let expected = entries_map(old_entries).insert(k, map);
    assert forall|q: Seq<Seq<char>>| m.contains_key(q) <==> expected.contains_key(q) by {
        if m.contains_key(q) {
            let j = choose|j: int| 0 <= j < n + 1 && entry_key(new_entries, j) == q;
            if j < n {
                assert(entry_key(old_entries, j) == q);
            }
        }
        if entries_map(old_entries).contains_key(q) {
            let j = choose|j: int| 0 <= j < n && entry_key(old_entries, j) == q;
            assert(entry_key(new_entries, j) == q);
        }
        if q == k {
            assert(entry_key(new_entries, n) == q);
        }
    }
    assert forall|q: Seq<Seq<char>>| #[trigger] m.contains_key(q) implies m[q] == expected[q] by {
        let j = choose|j: int| 0 <= j < n + 1 && entry_key(new_entries, j) == q;
        lemma_entry_in_map(new_entries, j);
        if j < n {
            assert(entry_key(old_entries, j) == q);
            lemma_entry_in_map(old_entries, j);
        }
    }
    assert(m =~= expected);
}

/// The index of the entry of `entries` stored under `key`, if any.
fn position(entries: &Vec<(Vec<String>, FileMap)>, key: &Vec<String>) -> (found: Option<usize>)
    ensures
        match found {
            Some(i) => i < entries@.len() && entry_key(entries@, i as int) == key.deep_view(),
            None => forall|i: int|
                0 <= i < entries@.len() ==> entry_key(entries@, i) != key.deep_view(),
        },
{
    let mut i: usize = 0;
    while i < entries.len()
        invariant
            i <= entries@.len(),
            forall|j: int| 0 <= j < i ==> entry_key(entries@, j) != key.deep_view(),
        decreases entries@.len() - i,
    {
        if same_components(&entries[i].0, key) {
            return Some(i);
        }
        i = i + 1;
    }
    None
}

/// File maps keyed by archive path, where two paths with the same
/// components are the same key.
#[derive(Debug)]
pub struct ArchiveMap {
    entries: Vec<(Vec<String>, FileMap)>,
}

impl ArchiveMap {
    #[verifier::type_invariant]
    closed spec fn unique(&self) -> bool {
        keys_unique(self.entries@)
    }

    /// The stored file maps by path components.
    pub closed spec fn as_map(&self) -> Map<Seq<Seq<char>>, FileMap> {
        entries_map(self.entries@)
    }

    /// An empty map.
    pub fn new() -> (this: Self)
        ensures
            this@ == Map::<Seq<Seq<char>>, FileMap>::empty(),
    {
        let this = ArchiveMap { entries: Vec::new() };
        assert(this@ =~= Map::<Seq<Seq<char>>, FileMap>::empty());
        this
    }

    /// The file map stored under the path with the components `key`.
    pub fn get_components(&self, key: &Vec<String>) -> (found: Option<&FileMap>)
        ensures
            found is Some <==> self@.contains_key(key.deep_view()),
            found matches Some(m) ==> *m == self@[key.deep_view()],
    {
        proof {
            use_type_invariant(self);
        }
        match position(&self.entries, key) {
            Some(i) => {
                proof {
                    lemma_entry_in_map(self.entries@, i as int);
                }
                Some(&self.entries[i].1)
            },
            None => None,
        }
    }

    /// The file map stored under `path`.
    pub fn get(&self, path: &str) -> (found: Option<&FileMap>)
        ensures
            found is Some <==> self@.contains_key(path_components(path@)),
            found matches Some(m) ==> *m == self@[path_components(path@)],
    {
        let key = components_of(path);
        self.get_components(&key)
    }

    /// Stores `map` under the path with the components `key`, in place of
    /// what was stored there.
    pub fn insert_components(&mut self, key: Vec<String>, map: FileMap)
        ensures
            final(self)@ == old(self)@.insert(key.deep_view(), map),
    {
        proof {
            use_type_invariant(&*self);
        }
        let mut entries: Vec<(Vec<String>, FileMap)> = Vec::new();
        std::mem::swap(&mut entries, &mut self.entries);
        let ghost old_entries = entries@;
        match position(&entries, &key) {
            Some(i) => {
                proof {
                    lemma_map_after_update(old_entries, i as int, key, map);
                }
                entries.set(i, (key, map));
            },
            None => {
                proof {
                    lemma_map_after_push(old_entries, key, map);
                }
                entries.push((key, map));
            },
        }
        self.entries = entries;
    }

    /// Stores `map` under `path`, in place of what was stored under a path
    /// with the same components.
    pub fn insert(&mut self, path: &str, map: FileMap)
        ensures
            final(self)@ == old(self)@.insert(path_components(path@), map),
    {
        let key = components_of(path);
        self.insert_components(key, map);
    }
}

/// A copy of the component list `parts`.
fn clone_components(parts: &Vec<String>) -> (copy: Vec<String>)
    ensures
        copy.deep_view() == parts.deep_view(),
{
    let mut copy: Vec<String> = Vec::new();
    let mut i: usize = 0;
    while i < parts.len()
        invariant
            i <= parts@.len(),
            copy@.len() == i,
            forall|j: int| 0 <= j < i ==> copy@[j]@ == parts@[j]@,
        decreases parts@.len() - i,
    {
        copy.push(parts[i].clone());
        i = i + 1;
    }
    assert(copy.deep_view() =~= parts.deep_view());
    copy
}

/// Two entry lists with the same keys and file maps, entry by entry, hold
/// the same map.
proof fn lemma_same_entries(a: Seq<(Vec<String>, FileMap)>, b: Seq<(Vec<String>, FileMap)>)
    requires
        keys_unique(a),
        a.len() == b.len(),
        forall|i: int|
            0 <= i < a.len() ==> #[trigger] entry_key(a, i) == entry_key(b, i) && a[i].1 == b[i].1,
    ensures
        keys_unique(b),
        entries_map(a) == entries_map(b),
{
    assert(keys_unique(b)) by {
        assert forall|i: int, j: int| 0 <= i < j < b.len() implies #[trigger] entry_key(b, i)
            != #[trigger] entry_key(b, j) by {
            assert(entry_key(a, i) != entry_key(a, j));
            assert(entry_key(a, i) == entry_key(b, i));
            assert(entry_key(a, j) == entry_key(b, j));
        }
    }
    let n = a.len();
    assert forall|q: Seq<Seq<char>>| entries_map(a).contains_key(q) <==> entries_map(b).contains_key(
        q,
    ) by {
        if entries_map(a).contains_key(q) {
            let j = choose|j: int| 0 <= j < n && entry_key(a, j) == q;
            assert(entry_key(b, j) == q);
        }
        if entries_map(b).contains_key(q) {
            let j = choose|j: int| 0 <= j < n && entry_key(b, j) == q;
            assert(entry_key(a, j) == q);
        }
    }
    assert forall|q: Seq<Seq<char>>| #[trigger]
        entries_map(a).contains_key(q) implies entries_map(a)[q] == entries_map(b)[q] by {
        let j = choose|j: int| 0 <= j < n && entry_key(a, j) == q;
        lemma_entry_in_map(a, j);
        assert(entry_key(b, j) == q);
        lemma_entry_in_map(b, j);
    }
    assert(entries_map(a) =~= entries_map(b));
}

impl Clone for ArchiveMap {
    /// A copy holding the same file maps under the same keys.
    fn clone(&self) -> (copy: Self)
        ensures
            copy@ == self@,
    {
        proof {
            use_type_invariant(self);
        }
        let mut entries: Vec<(Vec<String>, FileMap)> = Vec::new();
        let mut i: usize = 0;
        while i < self.entries.len()
            invariant
                i <= self.entries@.len(),
                entries@.len() == i,
                forall|j: int| 0 <= j < i ==> #[trigger] entries@[j].0.deep_view() == self.entries@[j].0.deep_view(),
                forall|j: int| 0 <= j < i ==> #[trigger] entries@[j].1 == self.entries@[j].1,
            decreases self.entries@.len() - i,
        {
            let key = clone_components(&self.entries[i].0);
            let file_map = self.entries[i].1;
            assert(file_map == self.entries@[i as int].1);
            let ghost before = entries@;
            entries.push((key, file_map));
            proof {
                assert(entry_key(entries@, i as int) == entry_key(self.entries@, i as int));
                assert(entries@[i as int].1 == self.entries@[i as int].1);
                assert forall|j: int| 0 <= j <= i implies #[trigger] entries@[j].0.deep_view()
                    == self.entries@[j].0.deep_view() by {
                    if j < i {
                        assert(entries@[j] == before[j]);
                    }
                }
                assert forall|j: int| 0 <= j <= i implies #[trigger] entries@[j].1
                    == self.entries@[j].1 by {
                    if j < i {
                        assert(entries@[j] == before[j]);
                    }
                }
            }
            i = i + 1;
        }
        proof {
            assert forall|j: int| 0 <= j < entries@.len() implies #[trigger] entry_key(self.entries@, j)
                == entry_key(entries@, j) && self.entries@[j].1 == entries@[j].1 by {
                assert(entries@[j].0.deep_view() == self.entries@[j].0.deep_view());
                assert(entries@[j].1 == self.entries@[j].1);
            }
            lemma_same_entries(self.entries@, entries@);
        }
        ArchiveMap { entries }
    }
}

impl View for ArchiveMap {
    type V = Map<Seq<Seq<char>>, FileMap>;

    open spec fn view(&self) -> Map<Seq<Seq<char>>, FileMap> {
        self.as_map()
    }
}

} // verus!

verus! {

/// Why an archive could not be found.
#[derive(Debug)]
pub enum StorageError {
    /// No archive is registered under the path given.
    ArchiveNotRegistered(String),
}

impl StorageError {
    /// The text of the error: ``Archive `PATH` is not registered``.
    pub fn message(&self) -> (text: String)
        ensures
            match self {
                StorageError::ArchiveNotRegistered(path) => text@ == "Archive `"@ + path@
                    + "` is not registered"@,
            },
    {
        match self {
            StorageError::ArchiveNotRegistered(path) => {
                let mut text = String::from_str("Archive `");
                text.append(path.as_str());
                text.append("` is not registered");
                text
            },
        }
    }
}

/// A registered archive: the file map built for it and the file holding it.
pub struct ArchiveLocation<'a> {
    pub file_map: &'a FileMap,
    pub file_path: String,
}

/// The spx archives under a root directory.
#[derive(Debug)]
pub struct SpxStorageSystem {
    root: String,
    map: ArchiveMap,
}

impl SpxStorageSystem {
    /// The root directory.
    pub closed spec fn root_path(&self) -> Seq<char> {
        self.root@
    }

    /// The registered archives, by the components of their path.
    pub closed spec fn archives(&self) -> Map<Seq<Seq<char>>, FileMap> {
        self.map@
    }

    /// A storage system under `root` with no archive registered.
    pub fn new(root: String) -> (this: Self)
        ensures
            this.root_path() == root@,
            this.archives() == Map::<Seq<Seq<char>>, FileMap>::empty(),
    {
        Self::from_map(root, ArchiveMap::new())
    }

    /// A storage system under `root` with the archives of `map`.
    pub fn from_map(root: String, map: ArchiveMap) -> (this: Self)
        ensures
            this.root_path() == root@,
            this.archives() == map@,
    {
        Self { root, map }
    }

    /// The root directory.
    pub fn root(&self) -> (root: &str)
        ensures
            root@ == self.root_path(),
    {
        self.root.as_str()
    }

    /// The archive registered under `path`: its file map and the file under
    /// the root that holds it; an error if no archive is registered there.
    pub fn archive(&self, path: &str) -> (found: Result<ArchiveLocation<'_>, StorageError>)
        ensures
            match found {
                Ok(location) => {
                    &&& self.archives().contains_key(path_components(path@))
                    &&& *location.file_map == self.archives()[path_components(path@)]
                    &&& location.file_path@ == joined_path(self.root_path(), path@)
                },
                Err(StorageError::ArchiveNotRegistered(p)) => {
                    &&& !self.archives().contains_key(path_components(path@))
                    &&& p@ == path@
                },
            },
    {
        match self.map.get(path) {
            Some(file_map) => Ok(ArchiveLocation { file_map, file_path: join_path(&self.root, path) }),
            None => Err(StorageError::ArchiveNotRegistered(String::from_str(path))),
        }
    }
}

} // verus!
