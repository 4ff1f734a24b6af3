//! Web storage: errors, quotas, storage events, IndexedDB stores and the
//! key/value areas behind `localStorage` and `sessionStorage`.
use vstd::prelude::*;
use vstd::string::StringSliceAdditionalSpecFns;
use crate::strs::{byte_len, byte_length, concat, push_str, string_views};
use crate::string_map::StringMap;

verus! {

/// `std::io::Error`, carried by storage errors.
#[verifier::external_type_specification]
#[verifier::external_body]
pub struct ExIoError(std::io::Error);

/// Storage errors.
#[derive(Debug)]
pub enum StorageError {
    QuotaExceeded,
    KeyNotFound(String),
    InvalidKey(String),
    InvalidValue(String),
    DatabaseError(String),
    TransactionError(String),
    SerializationError(String),
    IoError(std::io::Error),
}

/// Storage type.
#[derive(Debug, Clone, Copy, PartialEq, Eq, Structural)]
pub enum StorageType {
    /// localStorage (persistent)
    Local,
    /// sessionStorage (session-scoped)
    Session,
    /// IndexedDB (transactional database)
    IndexedDB,
}

/// Storage quota information, in bytes.
#[derive(Debug, Clone, Copy)]
pub struct StorageQuota {
    pub total: u64,
    pub used: u64,
    pub available: u64,
}

impl StorageQuota {
    /// Whether the quota is used up.
    pub fn is_exceeded(&self) -> (r: bool)
        ensures
            r == (self.used >= self.total),
    {
        self.used >= self.total
    }
}

/// A storage event, sent to other tabs when an area changes.
#[derive(Debug, Clone)]
pub struct StorageEvent {
    pub key: Option<String>,
    pub old_value: Option<String>,
    pub new_value: Option<String>,
    pub url: String,
    pub storage_type: String,
}

impl StorageEvent {
    /// Creates a storage event.
    pub fn new(
        key: Option<String>,
        old_value: Option<String>,
        new_value: Option<String>,
        url: String,
        storage_type: String,
    ) -> (r: Self)
        ensures
            r.key == key,
            r.old_value == old_value,
            r.new_value == new_value,
            r.url == url,
            r.storage_type == storage_type,
    {
        StorageEvent { key, old_value, new_value, url, storage_type }
    }
}

/// Quota manager: a default quota per origin.
pub struct QuotaManager {
    default_quota: u64,
}

impl QuotaManager {
    /// The default quota of a manager.
    pub closed spec fn spec_default_quota(&self) -> u64 {
        self.default_quota
    }

    /// Creates a quota manager.
    pub fn new(default_quota: u64) -> (r: Self)
        ensures
            r.spec_default_quota() == default_quota,
    {
        QuotaManager { default_quota }
    }

    /// The quota of an origin: the default quota, whatever the origin.
    pub fn get_quota(&self, origin: &str) -> (r: u64)
        ensures
            r == self.spec_default_quota(),
    {
        self.default_quota
    }

    /// Requests more quota; requests are never granted.
    pub fn request_quota(&self, origin: &str, requested: u64) -> (r: bool)
        ensures
            !r,
    {
        false
    }

    /// A quota manager with a 50 MiB default quota.
    pub fn default() -> (r: Self)
        ensures
            r.spec_default_quota() == 52428800,
    {
        Self::new(52428800)
    }
}

/// An index of an object store.
#[derive(Debug, Clone)]
pub struct Index {
    pub name: String,
    pub key_path: String,
    pub unique: bool,
    pub multi_entry: bool,
}

/// An object store of an IndexedDB database.
#[derive(Debug)]
pub struct ObjectStore {
    pub name: String,
    pub key_path: Option<String>,
    pub auto_increment: bool,
    pub indexes: StringMap<Index>,
}

/// Transaction mode.
#[derive(Debug, Clone, Copy, PartialEq, Eq, Structural)]
pub enum TransactionMode {
    ReadOnly,
    ReadWrite,
}

/// An IndexedDB database.
pub struct IndexedDB {
    name: String,
    version: u32,
    stores: StringMap<ObjectStore>,
}

impl IndexedDB {
    /// The database's object stores, by name.
    pub closed spec fn stores(&self) -> Map<Seq<char>, ObjectStore> {
        self.stores.map()
    }

    /// Well-formedness of the store table.
    pub closed spec fn wf(&self) -> bool {
        self.stores.wf()
    }

    /// The database name.
    pub closed spec fn spec_name(&self) -> Seq<char> {
        self.name@
    }

    /// The database version.
    pub closed spec fn spec_version(&self) -> u32 {
        self.version
    }

    /// Creates a database with no object stores.
    pub fn new(name: String, version: u32) -> (r: Self)
        ensures
            r.wf(),
            r.stores() == Map::<Seq<char>, ObjectStore>::empty(),
            r.spec_name() == name@,
            r.spec_version() == version,
    {
        IndexedDB { name, version, stores: StringMap::new() }
    }

    /// Creates an object store, replacing any store of the same name.
    pub fn create_object_store(&mut self, name: String, key_path: Option<String>, auto_increment: bool)
        requires
            old(self).wf(),
        ensures
            final(self).wf(),
            final(self).stores().dom() == old(self).stores().dom().insert(name@),
            final(self).stores()[name@].name@ == name@,
            final(self).stores()[name@].key_path == key_path,
            final(self).stores()[name@].auto_increment == auto_increment,
            final(self).stores()[name@].indexes.wf(),
            final(self).stores()[name@].indexes.map() == Map::<Seq<char>, Index>::empty(),
            forall|k: Seq<char>| k != name@ && old(self).stores().contains_key(k) ==> final(self).stores()[k]
                == old(self).stores()[k],
            final(self).spec_name() == old(self).spec_name(),
            final(self).spec_version() == old(self).spec_version(),
    {
        let store = ObjectStore { name: name.clone(), key_path, auto_increment, indexes: StringMap::new() };
        self.stores.insert(name, store);
    }

    /// The object store with the given name.
    pub fn object_store(&self, name: &str) -> (r: Option<&ObjectStore>)
        requires
            self.wf(),
        ensures
            self.stores().contains_key(name@) ==> r == Some(&self.stores()[name@]),
            !self.stores().contains_key(name@) ==> r is None,
    {
        self.stores.get(name)
    }
}

/// Bytes taken by the listed keys of a string map and their values.
pub open spec fn space_of(keys: Seq<Seq<char>>, m: Map<Seq<char>, String>) -> nat
    decreases keys.len(),
{
    if keys.len() == 0 {
        0
    } else {
        space_of(keys.drop_last(), m) + byte_len(keys.last()) + byte_len(m[keys.last()]@)
    }
}

/// Bytes taken by the listed keys and their values among some items.
pub open spec fn items_space(keys: Seq<Seq<char>>, items: Map<Seq<char>, Seq<char>>) -> nat
    decreases keys.len(),
{
    if keys.len() == 0 {
        0
    } else {
        items_space(keys.drop_last(), items) + byte_len(keys.last()) + byte_len(items[keys.last()])
    }
}

/// The bytes of stored strings are the bytes of their texts.
proof fn lemma_space_views(keys: Seq<Seq<char>>, m: Map<Seq<char>, String>)
    requires
        forall|i: int| 0 <= i < keys.len() ==> m.contains_key(#[trigger] keys[i]),
    ensures
        space_of(keys, m) == items_space(keys, m.map_values(|v: String| v@)),
    decreases keys.len(),
{
    if keys.len() > 0 {
        let p = keys.drop_last();
        assert forall|i: int| 0 <= i < p.len() implies m.contains_key(#[trigger] p[i]) by {
            assert(p[i] == keys[i]);
        }
        lemma_space_views(p, m);
        assert(m.contains_key(keys[keys.len() - 1]));
    }
}

/// The bytes an area uses, counted over the views of its items.
proof fn lemma_used_space_views(area: &StringMap<String>)
    requires
        area.wf(),
    ensures
        used_space(area) == items_space(area.key_list(), area.map().map_values(|v: String| v@)),
{
    area.lemma_keys();
    assert forall|i: int| 0 <= i < area.key_list().len() implies area.map().contains_key(#[trigger] area.key_list()[i]) by {
        assert(area.key_list().contains(area.key_list()[i]));
    }
    lemma_space_views(area.key_list(), area.map());
}

/// Bytes taken by all keys and values of a storage area.
pub open spec fn used_space(area: &StringMap<String>) -> nat {
    space_of(area.key_list(), area.map())
}

/// Whether storing `key` and `value` would take the area past `quota` (the bytes of
/// an old value under the same key still count).
pub open spec fn exceeds_quota(area: &StringMap<String>, key: Seq<char>, value: Seq<char>, quota: u64) -> bool {
    used_space(area) + byte_len(key) + byte_len(value) > quota
}

/// The bytes used by a storage area, when they do not exceed `limit`.
fn space_within(area: &StringMap<String>, limit: u128) -> (r: Option<u128>)
    requires
        area.wf(),
    ensures
        r matches Some(n) ==> n == used_space(area) && n <= limit,
        r is None ==> used_space(area) > limit,
{
    let mut acc: u128 = 0;
    let mut i: usize = 0;
    let ghost keys = area.key_list();
    let n = area.len();
    while i < n
        invariant
            area.wf(),
            n == keys.len(),
            keys == area.key_list(),
            i <= n,
            acc == space_of(keys.take(i as int), area.map()),
            acc <= limit,
            limit <= u128::MAX,
        decreases n - i,
    {
        let k = area.key_at(i).unwrap().as_str();
        let v = area.value_at(i).as_str();
        proof {
            assert(keys.take(i + 1).drop_last() =~= keys.take(i as int));
            assert(keys.take(i + 1).last() == keys[i as int]);
        }
        let add: u128 = (byte_length(k) as u128) + (byte_length(v) as u128);
        if add > limit || acc > limit - add {
            proof {
                lemma_space_monotone(keys, area.map(), i + 1);
            }
            return None;
        }
        acc = acc + add;
        i = i + 1;
    }
    proof {
        assert(keys.take(n as int) =~= keys);
    }
    Some(acc)
}

proof fn lemma_space_monotone(keys: Seq<Seq<char>>, m: Map<Seq<char>, String>, i: int)
    requires
        0 <= i <= keys.len(),
    ensures
        space_of(keys.take(i), m) <= space_of(keys, m),
    decreases keys.len() - i,
{
    if i < keys.len() {
        lemma_space_monotone(keys, m, i + 1);
        assert(keys.take(i + 1).drop_last() =~= keys.take(i));
    } else {
        assert(keys.take(i) =~= keys);
    }
}

/// Whether adding `key` and `value` to `area` would go past `quota`.
fn check_quota(area: &StringMap<String>, key: &str, value: &str, quota: u64) -> (r: bool)
    requires
        area.wf(),
    ensures
        r == exceeds_quota(area, key@, value@, quota),
{
    let new_size: u128 = (byte_length(key) as u128) + (byte_length(value) as u128);
    if new_size > quota as u128 {
        return true;
    }
    match space_within(area, (quota as u128) - new_size) {
        Some(_) => false,
        None => true,
    }
}

/// A copy of a stored string.
fn copy_string(s: &String) -> (r: String)
    ensures
        r@ == s@,
{
    s.clone()
}

/// The `sessionStorage` area: key/value pairs kept for one session.
pub struct SessionStorage {
    origin: String,
    storage: StringMap<String>,
    quota: u64,
}

impl SessionStorage {
    /// The stored items.
    pub closed spec fn items(&self) -> Map<Seq<char>, Seq<char>> {
        self.storage.map().map_values(|v: String| v@)
    }

    /// The keys, in the order `key` reports them.
    pub closed spec fn keys(&self) -> Seq<Seq<char>> {
        self.storage.key_list()
    }

    /// The area's quota in bytes.
    pub closed spec fn spec_quota(&self) -> u64 {
        self.quota
    }

    /// Bytes used by the stored keys and values.
    pub open spec fn spec_used(&self) -> nat {
        items_space(self.keys(), self.items())
    }

    /// Whether storing `key` and `value` would go past the quota: the bytes used, with
    /// the key's and the value's added (an old value under the key still counts).
    pub open spec fn would_exceed(&self, key: Seq<char>, value: Seq<char>) -> bool {
        self.spec_used() + byte_len(key) + byte_len(value) > self.spec_quota()
    }

    /// Well-formedness.
    pub closed spec fn wf(&self) -> bool {
        self.storage.wf()
    }

    /// An empty session area with the given quota.
    pub fn new(origin: String, quota: u64) -> (r: Self)
        ensures
            r.wf(),
            r.items() == Map::<Seq<char>, Seq<char>>::empty(),
            r.keys() == Seq::<Seq<char>>::empty(),
            r.spec_used() == 0,
            r.spec_quota() == quota,
    {
        let r = SessionStorage { origin, storage: StringMap::new(), quota };
        assert(r.items() =~= Map::<Seq<char>, Seq<char>>::empty());
        r
    }

    /// The number of items.
    pub fn length(&self) -> (r: usize)
        requires
            self.wf(),
        ensures
            r == self.items().dom().len(),
    {
        proof {
            self.storage.lemma_keys();
            assert(self.items().dom() =~= self.storage.map().dom());
        }
        self.storage.len()
    }

    /// The value stored under `key`.
    pub fn get_item(&self, key: &str) -> (r: Option<String>)
        requires
            self.wf(),
        ensures
            self.items().contains_key(key@) ==> (r matches Some(v) && v@ == self.items()[key@]),
            !self.items().contains_key(key@) ==> r is None,
    {
        match self.storage.get(key) {
            Some(v) => Some(copy_string(v)),
            None => None,
        }
    }

    /// Stores `value` under `key`, unless the area would go past its quota.
    pub fn set_item(&mut self, key: String, value: String) -> (r: Result<(), StorageError>)
        requires
            old(self).wf(),
        ensures
            final(self).wf(),
            final(self).spec_quota() == old(self).spec_quota(),
            old(self).would_exceed(key@, value@) ==> (r matches Err(StorageError::QuotaExceeded))
                && final(self).items() == old(self).items() && final(self).keys() == old(self).keys(),
            !old(self).would_exceed(key@, value@) ==> r is Ok && final(self).items() == old(self).items().insert(key@, value@)
                && final(self).keys() == (if old(self).items().contains_key(key@) { old(self).keys() } else { old(self).keys().push(key@) }),
    {
        proof {
            lemma_used_space_views(&self.storage);
        }
        if check_quota(&self.storage, key.as_str(), value.as_str(), self.quota) {
            return Err(StorageError::QuotaExceeded);
        }
        let ghost v = value;
        self.storage.insert(key, value);
        assert(self.items() =~= old(self).items().insert(key@, v@));
        Ok(())
    }

    /// Removes the item under `key`.
    pub fn remove_item(&mut self, key: &str)
        requires
            old(self).wf(),
        ensures
            final(self).wf(),
            final(self).items() == old(self).items().remove(key@),
            final(self).keys() == (if old(self).items().contains_key(key@) {
                old(self).keys().remove(old(self).keys().index_of(key@))
            } else {
                old(self).keys()
            }),
            final(self).spec_quota() == old(self).spec_quota(),
    {
        let _ = self.storage.remove(key);
        assert(self.items() =~= old(self).items().remove(key@));
    }

    /// Removes every item.
    pub fn clear(&mut self)
        requires
            old(self).wf(),
        ensures
            final(self).wf(),
            final(self).items() == Map::<Seq<char>, Seq<char>>::empty(),
            final(self).keys() == Seq::<Seq<char>>::empty(),
            final(self).spec_quota() == old(self).spec_quota(),
    {
        self.storage.clear();
        assert(self.items() =~= Map::<Seq<char>, Seq<char>>::empty());
    }

    /// The key at position `index`.
    pub fn key(&self, index: usize) -> (r: Option<String>)
        requires
            self.wf(),
        ensures
            index < self.keys().len() ==> (r matches Some(k) && k@ == self.keys()[index as int]
                && self.items().contains_key(k@)),
            index >= self.keys().len() ==> r is None,
    {
        proof {
            self.storage.lemma_keys();
        }
        match self.storage.key_at(index) {
            Some(k) => {
                proof {
                    assert(self.keys().contains(k@));
                }
                Some(copy_string(k))
            },
            None => None,
        }
    }
}

/// The in-memory side of `localStorage`: the cached items of one origin and its
/// quota. Writing the items to disk is the caller's part; `db_key` names them there.
pub struct LocalStorage {
    origin: String,
    cache: StringMap<String>,
    quota: u64,
}

impl LocalStorage {
    /// The cached items.
    pub closed spec fn items(&self) -> Map<Seq<char>, Seq<char>> {
        self.cache.map().map_values(|v: String| v@)
    }

    /// The keys, in the order `key` and `keys` report them.
    pub closed spec fn keys_list(&self) -> Seq<Seq<char>> {
        self.cache.key_list()
    }

    /// The origin.
    pub closed spec fn spec_origin(&self) -> Seq<char> {
        self.origin@
    }

    /// The quota in bytes.
    pub closed spec fn spec_quota(&self) -> u64 {
        self.quota
    }

    /// Bytes used by the cached keys and values.
    pub open spec fn spec_used(&self) -> nat {
        items_space(self.keys_list(), self.items())
    }

    /// Whether storing `key` and `value` would go past the quota: the bytes used, with
    /// the key's and the value's added (an old value under the key still counts).
    pub open spec fn would_exceed(&self, key: Seq<char>, value: Seq<char>) -> bool {
        self.spec_used() + byte_len(key) + byte_len(value) > self.spec_quota()
    }

    /// Well-formedness.
    pub closed spec fn wf(&self) -> bool {
        self.cache.wf()
    }

    /// An origin's area with nothing cached yet.
    pub fn new(origin: String, quota: u64) -> (r: Self)
        ensures
            r.wf(),
            r.items() == Map::<Seq<char>, Seq<char>>::empty(),
            r.keys_list() == Seq::<Seq<char>>::empty(),
            r.spec_used() == 0,
            r.spec_origin() == origin@,
            r.spec_quota() == quota,
    {
        let r = LocalStorage { origin, cache: StringMap::new(), quota };
        assert(r.items() =~= Map::<Seq<char>, Seq<char>>::empty());
        r
    }

    /// Puts an item read back from disk into the cache, without a quota check.
    pub fn load_item(&mut self, key: String, value: String)
        requires
            old(self).wf(),
        ensures
            final(self).wf(),
            final(self).items() == old(self).items().insert(key@, value@),
            final(self).spec_origin() == old(self).spec_origin(),
            final(self).spec_quota() == old(self).spec_quota(),
    {
        let ghost v = value;
        self.cache.insert(key, value);
        assert(self.items() =~= old(self).items().insert(key@, v@));
    }

    /// The prefix under which this origin's items are kept on disk: `local:<origin>:`.
    pub fn db_prefix(&self) -> (r: String)
        ensures
            r@ == "local:"@ + self.spec_origin() + ":"@,
    {
        let mut r = concat("local:", self.origin.as_str());
        push_str(&mut r, ":");
        r
    }

    /// The name of an item on disk: `local:<origin>:<key>`.
    pub fn db_key(&self, key: &str) -> (r: String)
        ensures
            r@ == "local:"@ + self.spec_origin() + ":"@ + key@,
    {
        let mut r = self.db_prefix();
        push_str(&mut r, key);
        r
    }

    /// The number of items.
    pub fn length(&self) -> (r: usize)
        requires
            self.wf(),
        ensures
            r == self.items().dom().len(),
    {
        proof {
            self.cache.lemma_keys();
            assert(self.items().dom() =~= self.cache.map().dom());
        }
        self.cache.len()
    }

    /// The value stored under `key`.
    pub fn get_item(&self, key: &str) -> (r: Option<String>)
        requires
            self.wf(),
        ensures
            self.items().contains_key(key@) ==> (r matches Some(v) && v@ == self.items()[key@]),
            !self.items().contains_key(key@) ==> r is None,
    {
        match self.cache.get(key) {
            Some(v) => Some(copy_string(v)),
            None => None,
        }
    }

    /// Stores `value` under `key` in the cache, unless the area would go past its quota.
    pub fn set_item(&mut self, key: String, value: String) -> (r: Result<(), StorageError>)
        requires
            old(self).wf(),
        ensures
            final(self).wf(),
            final(self).spec_origin() == old(self).spec_origin(),
            final(self).spec_quota() == old(self).spec_quota(),
            old(self).would_exceed(key@, value@) ==> (r matches Err(StorageError::QuotaExceeded))
                && final(self).items() == old(self).items() && final(self).keys_list() == old(self).keys_list(),
            !old(self).would_exceed(key@, value@) ==> r is Ok && final(self).items() == old(self).items().insert(key@, value@)
                && final(self).keys_list() == (if old(self).items().contains_key(key@) { old(self).keys_list() } else { old(self).keys_list().push(key@) }),
    {
        proof {
            lemma_used_space_views(&self.cache);
        }
        if check_quota(&self.cache, key.as_str(), value.as_str(), self.quota) {
            return Err(StorageError::QuotaExceeded);
        }
        let ghost v = value;
        self.cache.insert(key, value);
        assert(self.items() =~= old(self).items().insert(key@, v@));
        Ok(())
    }

    /// Removes the item under `key` from the cache.
    pub fn remove_item(&mut self, key: &str) -> (r: Result<(), StorageError>)
        requires
            old(self).wf(),
        ensures
            final(self).wf(),
            r is Ok,
            final(self).items() == old(self).items().remove(key@),
            final(self).keys_list() == (if old(self).items().contains_key(key@) {
                old(self).keys_list().remove(old(self).keys_list().index_of(key@))
            } else {
                old(self).keys_list()
            }),
            final(self).spec_origin() == old(self).spec_origin(),
            final(self).spec_quota() == old(self).spec_quota(),
    {
        let _ = self.cache.remove(key);
        assert(self.items() =~= old(self).items().remove(key@));
        Ok(())
    }

    /// Removes every cached item.
    pub fn clear(&mut self) -> (r: Result<(), StorageError>)
        requires
            old(self).wf(),
        ensures
            final(self).wf(),
            r is Ok,
            final(self).items() == Map::<Seq<char>, Seq<char>>::empty(),
            final(self).keys_list() == Seq::<Seq<char>>::empty(),
            final(self).spec_origin() == old(self).spec_origin(),
            final(self).spec_quota() == old(self).spec_quota(),
    {
        self.cache.clear();
        assert(self.items() =~= Map::<Seq<char>, Seq<char>>::empty());
        Ok(())
    }

    /// The key at position `index`.
    pub fn key(&self, index: usize) -> (r: Option<String>)
        requires
            self.wf(),
        ensures
            index < self.keys_list().len() ==> (r matches Some(k) && k@ == self.keys_list()[index as int]
                && self.items().contains_key(k@)),
            index >= self.keys_list().len() ==> r is None,
    {
        proof {
            self.cache.lemma_keys();
        }
        match self.cache.key_at(index) {
            Some(k) => {
                proof {
                    assert(self.keys_list().contains(k@));
                }
                Some(copy_string(k))
            },
            None => None,
        }
    }

    /// All keys.
    pub fn keys(&self) -> (r: Vec<String>)
        requires
            self.wf(),
        ensures
            string_views(r@) == self.keys_list(),
    {
        let mut r: Vec<String> = Vec::new();
        let n = self.cache.len();
        assert(string_views(r@) =~= self.keys_list().take(0));
        let mut i: usize = 0;
        while i < n
            invariant
                self.wf(),
                n == self.keys_list().len(),
                i <= n,
                string_views(r@) == self.keys_list().take(i as int),
            decreases n - i,
        {
            let k = self.cache.key_at(i).unwrap();
            let c = copy_string(k);
            let ghost old_r = r@;
            r.push(c);
            proof {
                assert(string_views(r@) =~= string_views(old_r).push(k@));
                assert(self.keys_list().take(i + 1) =~= self.keys_list().take(i as int).push(self.keys_list()[i as int]));
                assert(string_views(r@) =~= self.keys_list().take(i + 1));
            }
            i = i + 1;
        }
        proof {
            assert(self.keys_list().take(n as int) =~= self.keys_list());
        }
        r
    }

    /// Quota information: total, used and available bytes.
    pub fn quota(&self) -> (r: StorageQuota)
        requires
            self.wf(),
        ensures
            r.total == self.spec_quota(),
            self.spec_used() <= u64::MAX ==> r.used == self.spec_used(),
            self.spec_used() > u64::MAX ==> r.used == u64::MAX,
            r.available == if r.used >= r.total { 0 } else { (r.total - r.used) as u64 },
    {
        let used = self.get_used_space();
        StorageQuota { total: self.quota, used, available: self.quota.saturating_sub(used) }
    }

    /// Bytes used by the cached keys and values (saturating at `u64::MAX`).
    fn get_used_space(&self) -> (r: u64)
        requires
            self.wf(),
        ensures
            self.spec_used() <= u64::MAX ==> r == self.spec_used(),
            self.spec_used() > u64::MAX ==> r == u64::MAX,
    {
        proof {
            lemma_used_space_views(&self.cache);
        }
        match space_within(&self.cache, u64::MAX as u128) {
            Some(n) => n as u64,
            None => u64::MAX,
        }
    }
}

/// After a successful write, a read of the same key gives the value written, and a
/// read of any other key gives what it gave before.
pub proof fn law_storage_read_after_write(
    before: Map<Seq<char>, Seq<char>>,
    key: Seq<char>,
    value: Seq<char>,
    other: Seq<char>,
)
    ensures
        before.insert(key, value).contains_key(key),
        before.insert(key, value)[key] == value,
        other != key ==> (before.insert(key, value).contains_key(other) == before.contains_key(other)),
        other != key && before.contains_key(other) ==> before.insert(key, value)[other] == before[other],
{
}

/// After a removal, the key is absent and other keys are untouched.
pub proof fn law_storage_remove(before: Map<Seq<char>, Seq<char>>, key: Seq<char>, other: Seq<char>)
    ensures
        !before.remove(key).contains_key(key),
        other != key ==> (before.remove(key).contains_key(other) == before.contains_key(other)),
        other != key && before.contains_key(other) ==> before.remove(key)[other] == before[other],
{
}

/// Items of keys that are not listed do not count.
proof fn lemma_items_space_unlisted(keys: Seq<Seq<char>>, items: Map<Seq<char>, Seq<char>>, k: Seq<char>, v: Seq<char>)
    requires
        !keys.contains(k),
    ensures
        items_space(keys, items.insert(k, v)) == items_space(keys, items),
    decreases keys.len(),
{
    if keys.len() > 0 {
        let p = keys.drop_last();
        assert(!p.contains(k)) by {
            if p.contains(k) {
                let i = choose|i: int| 0 <= i < p.len() && p[i] == k;
                assert(keys[i] == k);
            }
        }
        lemma_items_space_unlisted(p, items, k, v);
        assert(keys[keys.len() - 1] != k);
    }
}

/// Writing a new key adds the bytes of the key and of its value to what an area uses.
pub proof fn law_new_item_adds_its_bytes(keys: Seq<Seq<char>>, items: Map<Seq<char>, Seq<char>>, k: Seq<char>, v: Seq<char>)
    requires
        !keys.contains(k),
    ensures
        items_space(keys.push(k), items.insert(k, v)) == items_space(keys, items) + byte_len(k) + byte_len(v),
{
    lemma_items_space_unlisted(keys, items, k, v);
    assert(keys.push(k).drop_last() =~= keys);
}

} // verus!
