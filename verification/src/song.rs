//! One file on its way to being identified.
//!
//! A song's fingerprint and playing time are taken from the cache where it
//! has them for the file's content. Where it has not, the caller decodes the
//! file and computes the fingerprint, and hands the library what came of it:
//! the library works out the playing time and records both in the cache for
//! the next time. Recording is best effort: a cache that keeps nothing
//! changes no answer.

use vstd::prelude::*;

use crate::cache::{
    duration_in, fingerprint_in, fingerprint_of, lemma_duration_round_trip,
    lemma_fingerprint_round_trip, with_duration, with_fingerprint, CacheError, Db,
};
use crate::{AcoustId, FileHash};

verus! {

/// Why a song could not be identified.
#[derive(Debug, Clone, Copy, PartialEq, Eq, Structural)]
pub enum IdentifyError {
    /// The decoder read no audio in the content.
    DecodeError,
    /// The decoded audio has no channels or no sample rate.
    InvalidAudioFormat,
    /// No candidate names both a title and an artist.
    NoConfidentMatch,
}

/// Whole seconds that `sample_count` interleaved samples play for.
pub open spec fn playing_time(sample_count: nat, channel_count: nat, sample_rate: nat) -> nat
    recommends
        channel_count > 0,
        sample_rate > 0,
{
    sample_count / channel_count / sample_rate
}

/// The playing time of decoded audio, in whole seconds, rounded down.
///
/// `sample_count` counts the samples of all channels together. Audio without
/// channels or without a sample rate has no playing time.
pub fn duration_secs(sample_count: u64, channel_count: u32, sample_rate: u32) -> (res: Result<
    u64,
    IdentifyError,
>)
    ensures
        channel_count == 0 || sample_rate == 0 ==> res == Err::<u64, IdentifyError>(
            IdentifyError::InvalidAudioFormat,
        ),
        channel_count > 0 && sample_rate > 0 ==> res == Ok::<u64, IdentifyError>(
            playing_time(sample_count as nat, channel_count as nat, sample_rate as nat) as u64,
        ),
{
    if channel_count == 0 || sample_rate == 0 {
        return Err(IdentifyError::InvalidAudioFormat);
    }
    let frames: u64 = sample_count / (channel_count as u64);
    Ok(frames / (sample_rate as u64))
}

/// What a decoder made of a file's audio.
#[derive(Debug, Clone, Copy, PartialEq, Eq, Structural)]
pub struct Decoded {
    /// Samples of one channel in a second.
    pub sample_rate: u32,
    /// The number of channels.
    pub channels: u32,
    /// The number of samples of all channels together.
    pub sample_count: u64,
}

/// The playing time, in seconds, that the outcome of decoding stands for: none
/// where decoding failed, or where the audio has no channels or no sample
/// rate.
pub open spec fn duration_of(decoded: Option<Decoded>) -> Result<u64, IdentifyError> {
    match decoded {
        None => Err(IdentifyError::DecodeError),
        Some(audio) => if audio.channels == 0 || audio.sample_rate == 0 {
            Err(IdentifyError::InvalidAudioFormat)
        } else {
            Ok(
                playing_time(
                    audio.sample_count as nat,
                    audio.channels as nat,
                    audio.sample_rate as nat,
                ) as u64,
            )
        },
    }
}

/// The playing time, in seconds, of what a decoder made of a file. A failed
/// decoding is handed in as none.
pub fn duration_decoded(decoded: Option<Decoded>) -> (res: Result<u64, IdentifyError>)
    ensures
        res == duration_of(decoded),
{
    match decoded {
        None => Err(IdentifyError::DecodeError),
        Some(audio) => duration_secs(audio.sample_count, audio.channels, audio.sample_rate),
    }
}

/// A value that was worked out for a file, with the answer of the cache that
/// it was recorded in: the value that the cache had before, or why the cache
/// did not keep the new one.
#[derive(Debug)]
pub struct Recorded<T> {
    pub value: T,
    pub before: Result<Option<T>, CacheError>,
}

/// A file, the fingerprint last found for it, and the cache it looks in.
#[derive(Debug)]
pub struct Song {
    pub path: std::path::PathBuf,
    acoustid: Option<AcoustId>,
    cache_acoustid: Db,
}

impl Song {
    /// Where the song's file lies.
    pub closed spec fn location(&self) -> std::path::PathBuf {
        self.path
    }

    /// The song's cache.
    pub closed spec fn cache(&self) -> Db {
        self.cache_acoustid
    }

    /// The fingerprint that the song last found in its cache.
    pub closed spec fn found_acoustid(&self) -> Option<Seq<char>> {
        match self.acoustid {
            Some(id) => Some(id@),
            None => None,
        }
    }

    /// Only the song's cache differs, and it is on the same store or on none
    /// as before.
    pub open spec fn same_but_entries(&self, before: Song) -> bool {
        &&& self.location() == before.location()
        &&& self.found_acoustid() == before.found_acoustid()
        &&& self.cache().backed() == before.cache().backed()
        &&& self.cache().location() == before.cache().location()
        &&& !before.cache().backed() ==> self.cache().entries() == before.cache().entries()
    }

    /// The song at `path`, with the cache in the user's data directory.
    pub fn new(path: std::path::PathBuf) -> (song: Song)
        ensures
            song.location() == path,
            song.found_acoustid() is None,
    {
        Song { path, acoustid: None, cache_acoustid: Db::new() }
    }

    /// The song at `path`, with a cache of the caller's.
    pub fn with_cache(path: std::path::PathBuf, cache: Db) -> (song: Song)
        ensures
            song.location() == path,
            song.found_acoustid() is None,
            song.cache() == cache,
    {
        Song { path, acoustid: None, cache_acoustid: cache }
    }

    /// The hash of the file's content, under which the song is cached.
    pub fn hash(data: &Vec<u8>) -> (hash: FileHash)
        ensures
            hash@ == crate::file_hash_of(data@),
    {
        FileHash::of(data)
    }

    /// Looks up the playing time, in seconds, that the cache has for the file
    /// with content `data`, and tells a cache that did not answer from one
    /// that has nothing.
    ///
    /// An answer is exactly what the cache holds for the content's hash: with
    /// a playing time cached, that playing time. Nothing is decoded and
    /// nothing is written.
    pub fn try_get_duration(&self, data: &Vec<u8>) -> (res: Result<Option<u64>, CacheError>)
        ensures
            !self.cache().backed() ==> res == Err::<Option<u64>, CacheError>(CacheError::Disabled),
            self.cache().backed() ==> res == Ok::<Option<u64>, CacheError>(
                duration_in(self.cache().entries(), crate::file_hash_of(data@)),
            ) || res == Err::<Option<u64>, CacheError>(CacheError::Store),
    {
        let hash = FileHash::of(data);
        self.cache_acoustid.try_get_duration(&hash)
    }

    /// The playing time, in seconds, that the cache has for the file with
    /// content `data`. None means that the file has to be decoded, and what
    /// came of it handed to `record_duration`.
    ///
    /// A disabled cache finds nothing. What a backed cache finds is what it
    /// holds for the content's hash; it finds nothing where its store fails.
    pub fn get_duration(&self, data: &Vec<u8>) -> (res: Option<u64>)
        ensures
            !self.cache().backed() ==> res is None,
            res matches Some(secs) ==> duration_in(
                self.cache().entries(),
                crate::file_hash_of(data@),
            ) == Some(secs),
    {
        match self.try_get_duration(data) {
            Ok(found) => found,
            Err(_) => None,
        }
    }

    /// Works out the playing time of the file with content `data` from what a
    /// decoder made of it, records it in the cache, and hands out the cache's
    /// answer with it.
    ///
    /// A failed decoding, and audio without channels or sample rate, are
    /// errors, and the song is left as it was. Otherwise the value is the
    /// playing time in whole seconds. Where the cache kept it, the cache holds
    /// it for the content's hash and is otherwise unchanged, and the answer is
    /// the playing time that it held before.
    pub fn try_record_duration(&mut self, data: &Vec<u8>, decoded: Option<Decoded>) -> (res: Result<
        Recorded<u64>,
        IdentifyError,
    >)
        ensures
            duration_of(decoded) matches Err(error) ==> res matches Err(e) && e == error
                && *final(self) == *old(self),
            duration_of(decoded) matches Ok(secs) ==> res matches Ok(done) && done.value == secs
                && {
                let h = crate::file_hash_of(data@);
                let before = old(self).cache().entries();
                let after = final(self).cache().entries();
                &&& !old(self).cache().backed() ==> done.before == Err::<
                    Option<u64>,
                    CacheError,
                >(CacheError::Disabled)
                &&& old(self).cache().backed() ==> done.before == Ok::<Option<u64>, CacheError>(
                    duration_in(before, h),
                ) || done.before == Err::<Option<u64>, CacheError>(CacheError::Store)
                &&& done.before is Ok ==> after == with_duration(before, h, secs) && duration_in(
                    after,
                    h,
                ) == Some(secs)
            },
            final(self).same_but_entries(*old(self)),
    {
        match duration_decoded(decoded) {
            Err(error) => Err(error),
            Ok(secs) => {
                let hash = FileHash::of(data);
                let ghost entries = self.cache_acoustid.entries();
                let before = self.cache_acoustid.try_insert_duration(&hash, secs);
                proof {
                    lemma_duration_round_trip(entries, hash@, secs);
                }
                Ok(Recorded { value: secs, before })
            },
        }
    }

    /// Works out the playing time of the file with content `data` from what a
    /// decoder made of it, and records it in the cache.
    ///
    /// The result is the playing time in whole seconds, or the error that
    /// decoding failed or that the audio has no channels or no sample rate; on
    /// an error the song is left as it was. What the cache kept makes no
    /// difference to the result.
    pub fn record_duration(&mut self, data: &Vec<u8>, decoded: Option<Decoded>) -> (res: Result<
        u64,
        IdentifyError,
    >)
        ensures
            res == duration_of(decoded),
            res is Err ==> *final(self) == *old(self),
            final(self).same_but_entries(*old(self)),
    {
        match self.try_record_duration(data, decoded) {
            Ok(done) => Ok(done.value),
            Err(error) => Err(error),
        }
    }

    /// Looks up the fingerprint that the cache has for the file with content
    /// `data`, and tells a cache that did not answer from one that has
    /// nothing. The song remembers a fingerprint that was found.
    ///
    /// An answer is exactly what the cache holds for the content's hash: with
    /// a fingerprint cached, that fingerprint. The cache is not written.
    pub fn try_get_acoustid(&mut self, data: &Vec<u8>) -> (res: Result<
        Option<AcoustId>,
        CacheError,
    >)
        ensures
            !old(self).cache().backed() ==> res == Err::<Option<AcoustId>, CacheError>(
                CacheError::Disabled,
            ),
            old(self).cache().backed() ==> (res matches Ok(found) && fingerprint_of(found)
                == fingerprint_in(old(self).cache().entries(), crate::file_hash_of(data@)))
                || res == Err::<Option<AcoustId>, CacheError>(CacheError::Store),
            res matches Ok(Some(id)) ==> final(self).found_acoustid() == Some(id@),
            !(res matches Ok(Some(_))) ==> *final(self) == *old(self),
            final(self).location() == old(self).location(),
            final(self).cache() == old(self).cache(),
    {
        let hash = FileHash::of(data);
        match self.cache_acoustid.try_get_acoustid(&hash) {
            Ok(Some(id)) => {
                self.acoustid = Some(AcoustId::new(id.to_string()));
                Ok(Some(id))
            },
            Ok(None) => Ok(None),
            Err(error) => Err(error),
        }
    }

    /// The fingerprint that the cache has for the file with content `data`;
    /// the song remembers it. None means that the fingerprint has to be
    /// computed, and handed to `record_acoustid`.
    ///
    /// A disabled cache finds nothing. What a backed cache finds is what it
    /// holds for the content's hash; it finds nothing where its store fails.
    pub fn get_acoustid(&mut self, data: &Vec<u8>) -> (res: Option<AcoustId>)
        ensures
            !old(self).cache().backed() ==> res is None,
            res matches Some(id) ==> fingerprint_in(
                old(self).cache().entries(),
                crate::file_hash_of(data@),
            ) == Some(id@) && final(self).found_acoustid() == Some(id@),
            res is None ==> *final(self) == *old(self),
            final(self).location() == old(self).location(),
            final(self).cache() == old(self).cache(),
    {
        match self.try_get_acoustid(data) {
            Ok(found) => found,
            Err(_) => None,
        }
    }

    /// Records in the cache a fingerprint that was computed for the file with
    /// content `data`, and hands it out with the cache's answer.
    ///
    /// The value is the fingerprint that was handed in. Where the cache kept
    /// it, the cache holds it for the content's hash and is otherwise
    /// unchanged, and the answer is the fingerprint that it held before.
    pub fn try_record_acoustid(&mut self, data: &Vec<u8>, id: AcoustId) -> (res: Recorded<AcoustId>)
        ensures
            res.value@ == id@,
            !old(self).cache().backed() ==> res.before == Err::<Option<AcoustId>, CacheError>(
                CacheError::Disabled,
            ),
            old(self).cache().backed() ==> (res.before matches Ok(found) && fingerprint_of(found)
                == fingerprint_in(old(self).cache().entries(), crate::file_hash_of(data@)))
                || res.before == Err::<Option<AcoustId>, CacheError>(CacheError::Store),
            res.before is Ok ==> final(self).cache().entries() == with_fingerprint(
                old(self).cache().entries(),
                crate::file_hash_of(data@),
                id@,
            ) && fingerprint_in(final(self).cache().entries(), crate::file_hash_of(data@)) == Some(
                id@,
            ),
            final(self).same_but_entries(*old(self)),
    {
        let hash = FileHash::of(data);
        let kept = AcoustId::new(id.to_string());
        let ghost entries = self.cache_acoustid.entries();
        let before = self.cache_acoustid.try_insert_acoustid(&hash, kept);
        proof {
            lemma_fingerprint_round_trip(entries, hash@, id@);
        }
        Recorded { value: id, before }
    }

    /// Records in the cache a fingerprint that was computed for the file with
    /// content `data`, and hands it back. What the cache kept makes no
    /// difference to the result.
    pub fn record_acoustid(&mut self, data: &Vec<u8>, id: AcoustId) -> (res: AcoustId)
        ensures
            res@ == id@,
            final(self).same_but_entries(*old(self)),
    {
        self.try_record_acoustid(data, id).value
    }
}

} // verus!
