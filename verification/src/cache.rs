//! The cache of fingerprints and playing times, keyed by content.
//!
//! The cache sits on a `sled` store in the user's data directory. When that
//! store cannot be opened the cache is disabled: it finds nothing and keeps
//! nothing, and never fails its caller. Fingerprints and playing times of one
//! file live under different keys, made from the file's hash and a suffix.

use vstd::prelude::*;
use vstd::string::*;
use vstd::utf8::*;

use crate::codec::{be_bytes, decode_secs, encode_secs, lemma_secs_round_trip};
use crate::codec::{lemma_text_round_trip, lemma_utf8_is_injective, stored_secs, stored_text};
use crate::codec::string_from_utf8;
use crate::{AcoustId, FileHash};

verus! {

/// An open store: a `sled::Db`, kept as `sled::open` gave it. What the store
/// holds is known through `stored` alone.
#[verifier::external_body]
#[derive(Debug)]
pub struct Store {
    handle: sled::Db,
}

/// `sled::Error`: why the store failed. Nothing is known of a value of it.
#[verifier::external_type_specification]
#[verifier::external_body]
pub struct ExSledError(sled::Error);

/// `std::path::PathBuf`: a path, carried from where it was made to where it
/// is opened. Nothing is known of a value of it.
#[verifier::external_type_specification]
#[verifier::external_body]
pub struct ExPathBuf(std::path::PathBuf);

/// `directories::ProjectDirs`: the directories of an application. Nothing is
/// known of a value of it.
#[verifier::external_type_specification]
#[verifier::external_body]
pub struct ExProjectDirs(directories::ProjectDirs);

/// What the default tree of a store holds: each key with its value. Reads
/// leave it as it is; writes go through `&mut`, so that a store that is
/// borrowed holds what it held.
pub uninterp spec fn stored(store: Store) -> Map<Seq<u8>, Seq<u8>>;

/// The path that a store was opened at. A store stays where it was opened.
pub uninterp spec fn opened_at(store: Store) -> std::path::PathBuf;

/// Calls `directories::ProjectDirs::from`, which finds the directories that
/// the user's system gives to an application. Whether there are any depends on
/// the user's environment: the contract promises nothing.
#[verifier::external_body]
fn project_dirs(qualifier: &str, organization: &str, application: &str) -> (dirs: Option<
    directories::ProjectDirs,
>) {
    directories::ProjectDirs::from(qualifier, organization, application)
}

/// Calls `directories::ProjectDirs::data_dir`, which hands out the data
/// directory among an application's directories. The path is opaque here: the
/// contract promises nothing.
#[verifier::external_body]
fn data_dir(dirs: &directories::ProjectDirs) -> (dir: std::path::PathBuf) {
    dirs.data_dir().to_path_buf()
}

/// Calls `sled::open`, which opens the store at a path and creates it where
/// there is none. A store that it gives is the one at that path. Whether it
/// gives one, and what the store then holds, depends on the disk: of that the
/// contract promises nothing.
#[verifier::external_body]
fn open_store(path: &std::path::PathBuf) -> (res: Result<Store, sled::Error>)
    ensures
        res matches Ok(store) ==> opened_at(store) == *path,
{
    sled::open(path).map(|handle| Store { handle })
}

/// Calls `sled::Tree::get` on the store's default tree. An answer is the value
/// that the store holds under the key, or none where the key is not in it; a
/// failed read says nothing. The store is left as it was.
#[verifier::external_body]
fn store_get(db: &Store, key: &Vec<u8>) -> (res: Result<Option<Vec<u8>>, sled::Error>)
    ensures
        res matches Ok(Some(value)) ==> stored(*db).contains_key(key@) && stored(*db)[key@]
            == value@,
        res matches Ok(None) ==> !stored(*db).contains_key(key@),
{
    db.handle.get(key).map(|found| found.map(|value| value.to_vec()))
}

/// Calls `sled::Tree::insert` on the store's default tree. An answer is the
/// value that the store held under the key before, or none where the key was
/// not in it, and the store then holds the new value under the key and is
/// otherwise unchanged; a failed write says nothing of what the store holds.
/// The store stays at its path either way.
#[verifier::external_body]
fn store_insert(db: &mut Store, key: &Vec<u8>, value: &Vec<u8>) -> (res: Result<
    Option<Vec<u8>>,
    sled::Error,
>)
    ensures
        opened_at(*final(db)) == opened_at(*old(db)),
        res is Ok ==> stored(*final(db)) == stored(*old(db)).insert(key@, value@),
        res matches Ok(Some(before)) ==> stored(*old(db)).contains_key(key@) && stored(
            *old(db),
        )[key@] == before@,
        res matches Ok(None) ==> !stored(*old(db)).contains_key(key@),
{
    db.handle.insert(key, value.as_slice()).map(|found| found.map(|before| before.to_vec()))
}

/// The key under which the fingerprint of content with hash `h` is kept.
pub open spec fn fingerprint_key(h: Seq<char>) -> Seq<u8> {
    encode_utf8(h + "-acoustid"@)
}

/// The key under which the playing time of content with hash `h` is kept.
pub open spec fn duration_key(h: Seq<char>) -> Seq<u8> {
    encode_utf8(h + "-duration"@)
}

/// The fingerprint that entries `m` hold for hash `h`.
pub open spec fn fingerprint_in(m: Map<Seq<u8>, Seq<u8>>, h: Seq<char>) -> Option<Seq<char>> {
    if m.contains_key(fingerprint_key(h)) {
        stored_text(m[fingerprint_key(h)])
    } else {
        None
    }
}

/// The playing time, in seconds, that entries `m` hold for hash `h`.
pub open spec fn duration_in(m: Map<Seq<u8>, Seq<u8>>, h: Seq<char>) -> Option<u64> {
    if m.contains_key(duration_key(h)) {
        stored_secs(m[duration_key(h)])
    } else {
        None
    }
}

/// Entries `m` after fingerprint `f` was kept for hash `h`.
pub open spec fn with_fingerprint(m: Map<Seq<u8>, Seq<u8>>, h: Seq<char>, f: Seq<char>) -> Map<
    Seq<u8>,
    Seq<u8>,
> {
    m.insert(fingerprint_key(h), encode_utf8(f))
}

/// Entries `m` after a playing time of `secs` seconds was kept for hash `h`.
pub open spec fn with_duration(m: Map<Seq<u8>, Seq<u8>>, h: Seq<char>, secs: u64) -> Map<
    Seq<u8>,
    Seq<u8>,
> {
    m.insert(duration_key(h), be_bytes(secs))
}

/// The key of a file's fingerprint: its hash, then `-acoustid`.
pub fn key_acoustid(hash: &FileHash) -> (key: Vec<u8>)
    ensures
        key@ == fingerprint_key(hash@),
{
    let text: String = hash.to_string().concat("-acoustid");
    text.as_str().as_bytes_vec()
}

/// The key of a file's playing time: its hash, then `-duration`.
pub fn key_duration(hash: &FileHash) -> (key: Vec<u8>)
    ensures
        key@ == duration_key(hash@),
{
    let text: String = hash.to_string().concat("-duration");
    text.as_str().as_bytes_vec()
}

/// The text of a fingerprint that was found, if one was.
pub open spec fn fingerprint_of(found: Option<AcoustId>) -> Option<Seq<char>> {
    match found {
        Some(id) => Some(id@),
        None => None,
    }
}

/// The fingerprint that a read of the store stands for: the text of the bytes
/// that were found, and none where nothing was found or the bytes are no text.
pub fn fingerprint_found(found: Option<Vec<u8>>) -> (res: Option<AcoustId>)
    ensures
        found is None ==> res is None,
        found matches Some(bytes) ==> fingerprint_of(res) == stored_text(bytes@),
{
    match found {
        None => None,
        Some(bytes) => match string_from_utf8(bytes) {
            Some(text) => Some(AcoustId::new(text)),
            None => None,
        },
    }
}

/// The playing time that a read of the store stands for: the seconds in the
/// bytes that were found, and none where nothing was found or the bytes are
/// not eight.
pub fn duration_found(found: Option<Vec<u8>>) -> (res: Option<u64>)
    ensures
        found is None ==> res is None,
        found matches Some(bytes) ==> res == stored_secs(bytes@),
{
    match found {
        None => None,
        Some(bytes) => decode_secs(&bytes),
    }
}

/// Why the cache could not answer.
#[derive(Debug, Clone, Copy, PartialEq, Eq, Structural)]
pub enum CacheError {
    /// The cache is disabled.
    Disabled,
    /// The store failed to read or to write.
    Store,
}

/// The cache. It is backed by a store, or disabled.
#[derive(Debug)]
pub struct Db {
    tree: Option<Store>,
}

impl Default for Db {
    /// The disabled cache.
    fn default() -> (db: Db)
        ensures
            !db.backed(),
            db.location() is None,
    {
        Db { tree: None }
    }
}

impl Db {
    /// The cache is backed by a store.
    pub closed spec fn backed(&self) -> bool {
        self.tree is Some
    }

    /// What the cache holds; a disabled cache holds nothing.
    pub closed spec fn entries(&self) -> Map<Seq<u8>, Seq<u8>> {
        match self.tree {
            Some(tree) => stored(tree),
            None => Map::empty(),
        }
    }

    /// The path of the store that backs the cache; a disabled cache has none.
    pub closed spec fn location(&self) -> Option<std::path::PathBuf> {
        match self.tree {
            Some(tree) => Some(opened_at(tree)),
            None => None,
        }
    }

    /// The cache on the store that an attempt to open one gave: disabled where
    /// the attempt failed.
    pub fn from_opened(opened: Result<Store, sled::Error>) -> (db: Db)
        ensures
            db.backed() <==> opened is Ok,
            opened matches Ok(tree) ==> db.entries() == stored(tree) && db.location() == Some(
                opened_at(tree),
            ),
            opened is Err ==> db.location() is None,
    {
        match opened {
            Ok(tree) => Db { tree: Some(tree) },
            Err(_) => Db { tree: None },
        }
    }

    /// The cache on the store at `path`, disabled where no store can be
    /// opened there.
    ///
    /// Whether a store can be opened, and what it holds, the disk decides. A
    /// cache that is backed is backed by the store at `path` and no other.
    pub fn open(path: &std::path::PathBuf) -> (db: Db)
        ensures
            db.backed() ==> db.location() == Some(*path),
            !db.backed() ==> db.location() is None,
    {
        Db::from_opened(open_store(path))
    }

    /// The cache in the user's data directory, disabled where there is no such
    /// directory or no store can be opened in it.
    ///
    /// Which directory that is, and whether a store can be opened in it, the
    /// user's system decides. A cache that is backed is on a store, and one
    /// that is disabled is on none.
    pub fn new() -> (db: Db)
        ensures
            db.backed() <==> db.location() is Some,
    {
        match project_dirs("", "music-rater", "risto") {
            Some(dirs) => Db::open(&data_dir(&dirs)),
            None => Db { tree: None },
        }
    }

    /// Whether the cache is backed by a store.
    pub fn is_backed(&self) -> (b: bool)
        ensures
            b == self.backed(),
    {
        self.tree.is_some()
    }

    fn read(&self, key: &Vec<u8>) -> (res: Result<Option<Vec<u8>>, CacheError>)
        ensures
            res matches Err(error) ==> (error == CacheError::Disabled <==> !self.backed()),
            res matches Ok(Some(value)) ==> self.entries().contains_key(key@)
                && self.entries()[key@] == value@,
            res matches Ok(None) ==> !self.entries().contains_key(key@),
            res is Ok ==> self.backed(),
    {
        match &self.tree {
            None => Err(CacheError::Disabled),
            Some(tree) => match store_get(tree, key) {
                Ok(found) => Ok(found),
                Err(_) => Err(CacheError::Store),
            },
        }
    }

    fn write(&mut self, key: &Vec<u8>, value: &Vec<u8>) -> (res: Result<
        Option<Vec<u8>>,
        CacheError,
    >)
        ensures
            final(self).backed() == old(self).backed(),
            final(self).location() == old(self).location(),
            !old(self).backed() ==> final(self).entries() == old(self).entries(),
            res matches Err(error) ==> (error == CacheError::Disabled <==> !old(self).backed()),
            res is Ok ==> final(self).entries() == old(self).entries().insert(key@, value@),
            res matches Ok(Some(before)) ==> old(self).entries().contains_key(key@) && old(
                self,
            ).entries()[key@] == before@,
            res matches Ok(None) ==> !old(self).entries().contains_key(key@),
    {
        match &mut self.tree {
            None => Err(CacheError::Disabled),
            Some(tree) => match store_insert(tree, key, value) {
                Ok(before) => Ok(before),
                Err(_) => Err(CacheError::Store),
            },
        }
    }

    /// Looks up the playing time, in seconds, that is cached for a file, and
    /// tells a cache that did not answer from one that has nothing.
    ///
    /// An answer is exactly what the entries hold for the hash. A disabled
    /// cache does not answer, nor does one whose store fails to read.
    pub fn try_get_duration(&self, key: &FileHash) -> (res: Result<Option<u64>, CacheError>)
        ensures
            !self.backed() ==> res == Err::<Option<u64>, CacheError>(CacheError::Disabled),
            self.backed() ==> res == Ok::<Option<u64>, CacheError>(
                duration_in(self.entries(), key@),
            ) || res == Err::<Option<u64>, CacheError>(CacheError::Store),
    {
        match self.read(&key_duration(key)) {
            Ok(found) => Ok(duration_found(found)),
            Err(error) => Err(error),
        }
    }

    /// Caches a playing time, in seconds, for a file, and tells a cache that
    /// kept it from one that did not.
    ///
    /// Where the cache kept it, the entries hold the new playing time for the
    /// hash and are otherwise unchanged, and the answer is the playing time
    /// that they held for it before. A disabled cache keeps nothing; so may
    /// one whose store fails to write.
    pub fn try_insert_duration(&mut self, key: &FileHash, duration: u64) -> (res: Result<
        Option<u64>,
        CacheError,
    >)
        ensures
            final(self).backed() == old(self).backed(),
            final(self).location() == old(self).location(),
            !old(self).backed() ==> res == Err::<Option<u64>, CacheError>(CacheError::Disabled)
                && final(self).entries() == old(self).entries(),
            old(self).backed() ==> res == Ok::<Option<u64>, CacheError>(
                duration_in(old(self).entries(), key@),
            ) || res == Err::<Option<u64>, CacheError>(CacheError::Store),
            res is Ok ==> final(self).entries() == with_duration(
                old(self).entries(),
                key@,
                duration,
            ),
    {
        match self.write(&key_duration(key), &encode_secs(duration)) {
            Ok(before) => Ok(duration_found(before)),
            Err(error) => Err(error),
        }
    }

    /// Looks up the fingerprint that is cached for a file, and tells a cache
    /// that did not answer from one that has nothing.
    ///
    /// An answer is exactly what the entries hold for the hash. A disabled
    /// cache does not answer, nor does one whose store fails to read.
    pub fn try_get_acoustid(&self, key: &FileHash) -> (res: Result<Option<AcoustId>, CacheError>)
        ensures
            !self.backed() ==> res == Err::<Option<AcoustId>, CacheError>(CacheError::Disabled),
            self.backed() ==> (res matches Ok(found) && fingerprint_of(found) == fingerprint_in(
                self.entries(),
                key@,
            )) || res == Err::<Option<AcoustId>, CacheError>(CacheError::Store),
    {
        match self.read(&key_acoustid(key)) {
            Ok(found) => Ok(fingerprint_found(found)),
            Err(error) => Err(error),
        }
    }

    /// Caches a fingerprint for a file, and tells a cache that kept it from
    /// one that did not.
    ///
    /// Where the cache kept it, the entries hold the new fingerprint for the
    /// hash and are otherwise unchanged, and the answer is the fingerprint
    /// that they held for it before. A disabled cache keeps nothing; so may
    /// one whose store fails to write.
    pub fn try_insert_acoustid(&mut self, key: &FileHash, id: AcoustId) -> (res: Result<
        Option<AcoustId>,
        CacheError,
    >)
        ensures
            final(self).backed() == old(self).backed(),
            final(self).location() == old(self).location(),
            !old(self).backed() ==> res == Err::<Option<AcoustId>, CacheError>(
                CacheError::Disabled,
            ) && final(self).entries() == old(self).entries(),
            old(self).backed() ==> (res matches Ok(before) && fingerprint_of(before)
                == fingerprint_in(old(self).entries(), key@)) || res == Err::<
                Option<AcoustId>,
                CacheError,
            >(CacheError::Store),
            res is Ok ==> final(self).entries() == with_fingerprint(
                old(self).entries(),
                key@,
                id@,
            ),
    {
        let value: Vec<u8> = id.as_str().as_bytes_vec();
        match self.write(&key_acoustid(key), &value) {
            Ok(before) => Ok(fingerprint_found(before)),
            Err(error) => Err(error),
        }
    }

    /// The playing time, in seconds, that is cached for a file.
    ///
    /// A disabled cache finds nothing. What a backed cache finds is what its
    /// entries hold for the hash; it finds nothing where the store fails.
    pub fn get_duration(&self, key: &FileHash) -> (res: Option<u64>)
        ensures
            !self.backed() ==> res is None,
            res matches Some(secs) ==> duration_in(self.entries(), key@) == Some(secs),
    {
        match self.try_get_duration(key) {
            Ok(found) => found,
            Err(_) => None,
        }
    }

    /// Caches a playing time, in seconds, for a file, and returns the one that
    /// was cached for it before.
    ///
    /// A disabled cache keeps nothing and returns none. Where the store takes
    /// the write, the entries hold the new playing time and are otherwise
    /// unchanged; a result is the playing time that they held before.
    pub fn insert_duration(&mut self, key: &FileHash, duration: u64) -> (res: Option<u64>)
        ensures
            final(self).backed() == old(self).backed(),
            final(self).location() == old(self).location(),
            !old(self).backed() ==> res is None && final(self).entries() == old(self).entries(),
            res matches Some(before) ==> duration_in(old(self).entries(), key@) == Some(before),
            res is Some ==> final(self).entries() == with_duration(
                old(self).entries(),
                key@,
                duration,
            ),
    {
        match self.try_insert_duration(key, duration) {
            Ok(before) => before,
            Err(_) => None,
        }
    }

    /// The fingerprint that is cached for a file.
    ///
    /// A disabled cache finds nothing. What a backed cache finds is what its
    /// entries hold for the hash; it finds nothing where the store fails.
    pub fn get_acoustid(&self, key: &FileHash) -> (res: Option<AcoustId>)
        ensures
            !self.backed() ==> res is None,
            res matches Some(id) ==> fingerprint_in(self.entries(), key@) == Some(id@),
    {
        match self.try_get_acoustid(key) {
            Ok(found) => found,
            Err(_) => None,
        }
    }

    /// Caches a fingerprint for a file, and returns the one that was cached
    /// for it before.
    ///
    /// A disabled cache keeps nothing and returns none. Where the store takes
    /// the write, the entries hold the new fingerprint and are otherwise
    /// unchanged; a result is the fingerprint that they held before.
    pub fn insert_acoustid(&mut self, key: &FileHash, id: AcoustId) -> (res: Option<AcoustId>)
        ensures
            final(self).backed() == old(self).backed(),
            final(self).location() == old(self).location(),
            !old(self).backed() ==> res is None && final(self).entries() == old(self).entries(),
            res matches Some(before) ==> fingerprint_in(old(self).entries(), key@) == Some(
                before@,
            ),
            res is Some ==> final(self).entries() == with_fingerprint(
                old(self).entries(),
                key@,
                id@,
            ),
    {
        match self.try_insert_acoustid(key, id) {
            Ok(before) => before,
            Err(_) => None,
        }
    }
}

/// A disabled cache is on no store and holds nothing, so nothing is found in
/// it.
pub proof fn lemma_disabled_cache_holds_nothing(db: Db, h: Seq<char>)
    requires
        !db.backed(),
    ensures
        db.location() is None,
        db.entries() == Map::<Seq<u8>, Seq<u8>>::empty(),
        fingerprint_in(db.entries(), h) is None,
        duration_in(db.entries(), h) is None,
{
}

/// A fingerprint key is never a playing-time key, whatever the hashes.
pub proof fn lemma_keys_never_collide(h1: Seq<char>, h2: Seq<char>)
    ensures
        fingerprint_key(h1) != duration_key(h2),
{
    reveal_strlit("-acoustid");
    reveal_strlit("-duration");
    let a = h1 + "-acoustid"@;
    let d = h2 + "-duration"@;
    assert(a[a.len() - 1] == 'd');
    assert(d[d.len() - 1] == 'n');
    if fingerprint_key(h1) == duration_key(h2) {
        lemma_utf8_is_injective(a, d);
    }
}

/// A fingerprint that was kept for a hash is the one found for it.
pub proof fn lemma_fingerprint_round_trip(m: Map<Seq<u8>, Seq<u8>>, h: Seq<char>, f: Seq<char>)
    ensures
        fingerprint_in(with_fingerprint(m, h, f), h) == Some(f),
{
    lemma_text_round_trip(f);
}

/// A playing time that was kept for a hash is the one found for it.
pub proof fn lemma_duration_round_trip(m: Map<Seq<u8>, Seq<u8>>, h: Seq<char>, secs: u64)
    ensures
        duration_in(with_duration(m, h, secs), h) == Some(secs),
{
    lemma_secs_round_trip(secs);
}

/// Keeping a fingerprint changes no playing time, and keeping a playing time
/// changes no fingerprint, for the same hash or another.
pub proof fn lemma_namespaces_never_cross(
    m: Map<Seq<u8>, Seq<u8>>,
    h: Seq<char>,
    other: Seq<char>,
    f: Seq<char>,
    secs: u64,
)
    ensures
        duration_in(with_fingerprint(m, h, f), other) == duration_in(m, other),
        fingerprint_in(with_duration(m, h, secs), other) == fingerprint_in(m, other),
{
    lemma_keys_never_collide(h, other);
    lemma_keys_never_collide(other, h);
}

} // verus!
