use risto::cache::{
    duration_found, fingerprint_found, key_acoustid, key_duration, CacheError, Db,
};
use risto::{AcoustId, FileHash};
use std::path::PathBuf;

fn store_path(name: &str) -> PathBuf {
    PathBuf::from(format!("/tmp/risto-cache-tests/{}", name))
}

fn hash_of(content: &str) -> FileHash {
    FileHash::of(&content.as_bytes().to_vec())
}

fn id(text: &str) -> AcoustId {
    AcoustId::new(String::from(text))
}

fn text(found: Option<AcoustId>) -> Option<String> {
    found.map(|id| id.to_string())
}

#[test]
fn disabled_cache_finds_and_keeps_nothing() {
    let mut db = Db::default();
    let hash = hash_of("a song");
    assert!(!db.is_backed());
    assert!(db.get_acoustid(&hash).is_none());
    assert!(db.get_duration(&hash).is_none());
    assert!(db.insert_acoustid(&hash, id("AQAB")).is_none());
    assert!(db.insert_duration(&hash, 15).is_none());
    assert!(db.get_acoustid(&hash).is_none());
    assert!(db.get_duration(&hash).is_none());
    assert!(db.insert_acoustid(&hash, id("AQAC")).is_none());
    assert!(db.insert_duration(&hash, 16).is_none());
}

#[test]
fn cache_that_cannot_be_opened_is_disabled() {
    let mut db = Db::open(&PathBuf::from("/dev/null/no-store-here"));
    let hash = hash_of("a song");
    assert!(!db.is_backed());
    assert!(db.insert_acoustid(&hash, id("AQAB")).is_none());
    assert!(db.get_acoustid(&hash).is_none());
    assert!(db.insert_duration(&hash, 15).is_none());
    assert!(db.get_duration(&hash).is_none());
}

#[test]
fn construction_never_fails() {
    let db = Db::new();
    let hash = hash_of("a song that nobody cached");
    let _ = db.get_duration(&hash);
    let _ = db.get_acoustid(&hash);
    let _ = db.is_backed();
}

#[test]
fn fingerprint_round_trip() {
    let mut db = Db::open(&store_path("fingerprint_round_trip"));
    assert!(db.is_backed());
    let hash = hash_of("round trip of a fingerprint");
    let _ = db.insert_acoustid(&hash, id("AQABz0qUkZK4oOfhL-CPc4e5C_wW2H2QH9uDL4cvoT8UNQ"));
    assert_eq!(
        text(db.get_acoustid(&hash)),
        Some(String::from("AQABz0qUkZK4oOfhL-CPc4e5C_wW2H2QH9uDL4cvoT8UNQ"))
    );
}

#[test]
fn duration_round_trip() {
    let mut db = Db::open(&store_path("duration_round_trip"));
    assert!(db.is_backed());
    let hash = hash_of("round trip of a duration");
    let _ = db.insert_duration(&hash, 641);
    assert_eq!(db.get_duration(&hash), Some(641));
    let _ = db.insert_duration(&hash, u64::MAX);
    assert_eq!(db.get_duration(&hash), Some(u64::MAX));
    let _ = db.insert_duration(&hash, 0);
    assert_eq!(db.get_duration(&hash), Some(0));
}

#[test]
fn insert_returns_the_value_before() {
    let mut db = Db::open(&store_path("insert_returns_the_value_before"));
    let hash = hash_of("overwritten");
    let _ = db.insert_acoustid(&hash, id("first"));
    assert_eq!(text(db.insert_acoustid(&hash, id("second"))), Some(String::from("first")));
    assert_eq!(text(db.get_acoustid(&hash)), Some(String::from("second")));
    let _ = db.insert_duration(&hash, 10);
    assert_eq!(db.insert_duration(&hash, 20), Some(10));
    assert_eq!(db.get_duration(&hash), Some(20));
}

#[test]
fn fingerprint_does_not_touch_the_duration() {
    let mut db = Db::open(&store_path("fingerprint_does_not_touch_the_duration"));
    let hash = hash_of("fingerprint only");
    let _ = db.insert_acoustid(&hash, id("AQAB"));
    assert_eq!(db.get_duration(&hash), None);
    assert_eq!(text(db.get_acoustid(&hash)), Some(String::from("AQAB")));
}

#[test]
fn duration_does_not_touch_the_fingerprint() {
    let mut db = Db::open(&store_path("duration_does_not_touch_the_fingerprint"));
    let hash = hash_of("duration only");
    let _ = db.insert_duration(&hash, 15);
    assert!(db.get_acoustid(&hash).is_none());
    assert_eq!(db.get_duration(&hash), Some(15));
}

#[test]
fn both_kinds_live_side_by_side() {
    let mut db = Db::open(&store_path("both_kinds_live_side_by_side"));
    let hash = hash_of("both kinds");
    let _ = db.insert_acoustid(&hash, id("12345678"));
    let _ = db.insert_duration(&hash, 0x3132_3334_3536_3738);
    assert_eq!(text(db.get_acoustid(&hash)), Some(String::from("12345678")));
    assert_eq!(db.get_duration(&hash), Some(0x3132_3334_3536_3738));
}

#[test]
fn another_hash_is_untouched() {
    let mut db = Db::open(&store_path("another_hash_is_untouched"));
    let one = hash_of("one file");
    let other = hash_of("another file, never cached");
    let _ = db.insert_acoustid(&one, id("AQAB"));
    let _ = db.insert_duration(&one, 15);
    assert!(db.get_acoustid(&other).is_none());
    assert!(db.get_duration(&other).is_none());
}

#[test]
fn entries_outlive_the_cache() {
    let hash = hash_of("kept between runs");
    {
        let mut db = Db::open(&store_path("entries_outlive_the_cache"));
        let _ = db.insert_acoustid(&hash, id("AQAB"));
        let _ = db.insert_duration(&hash, 15);
    }
    let db = Db::open(&store_path("entries_outlive_the_cache"));
    assert_eq!(text(db.get_acoustid(&hash)), Some(String::from("AQAB")));
    assert_eq!(db.get_duration(&hash), Some(15));
}

#[test]
fn stored_layout_is_text_and_big_endian_seconds() {
    let hash = hash_of("layout on disk");
    {
        let mut db = Db::open(&store_path("stored_layout"));
        let _ = db.insert_acoustid(&hash, id("AQAB"));
        let _ = db.insert_duration(&hash, 15);
    }
    let store = sled::open(store_path("stored_layout")).unwrap();
    let fingerprint = store.get(format!("{}-acoustid", hash.as_str())).unwrap().unwrap();
    assert_eq!(fingerprint.to_vec(), b"AQAB".to_vec());
    let duration = store.get(format!("{}-duration", hash.as_str())).unwrap().unwrap();
    assert_eq!(duration.to_vec(), vec![0, 0, 0, 0, 0, 0, 0, 15]);
}

#[test]
fn corrupt_entries_are_absent() {
    let hash = hash_of("corrupt entries");
    {
        let store = sled::open(store_path("corrupt_entries")).unwrap();
        store.insert(format!("{}-acoustid", hash.as_str()), vec![0xff, 0xfe, 0x80]).unwrap();
        store.insert(format!("{}-duration", hash.as_str()), vec![1, 2, 3]).unwrap();
    }
    let mut db = Db::open(&store_path("corrupt_entries"));
    assert!(db.is_backed());
    assert!(db.get_acoustid(&hash).is_none());
    assert_eq!(db.get_duration(&hash), None);
    assert!(db.insert_acoustid(&hash, id("AQAB")).is_none());
    assert_eq!(db.insert_duration(&hash, 15), None);
    assert_eq!(text(db.get_acoustid(&hash)), Some(String::from("AQAB")));
    assert_eq!(db.get_duration(&hash), Some(15));
    let store_again = {
        drop(db);
        sled::open(store_path("corrupt_entries")).unwrap()
    };
    store_again.insert(format!("{}-acoustid", hash.as_str()), vec![0xff, 0xfe, 0x80]).unwrap();
    store_again.insert(format!("{}-duration", hash.as_str()), vec![1, 2, 3]).unwrap();
}

#[test]
fn keys_are_the_hash_and_a_suffix() {
    let hash = hash_of("keys");
    assert_eq!(key_acoustid(&hash), format!("{}-acoustid", hash.as_str()).into_bytes());
    assert_eq!(key_duration(&hash), format!("{}-duration", hash.as_str()).into_bytes());
    assert_ne!(key_acoustid(&hash), key_duration(&hash));
    assert_ne!(key_acoustid(&hash), key_acoustid(&hash_of("other keys")));
}

#[test]
fn found_bytes_are_read_as_values() {
    assert_eq!(text(fingerprint_found(Some(b"AQAB".to_vec()))), Some(String::from("AQAB")));
    assert_eq!(text(fingerprint_found(Some(Vec::new()))), Some(String::new()));
    assert_eq!(
        text(fingerprint_found(Some("t\u{e9}l\u{e9}".as_bytes().to_vec()))),
        Some(String::from("t\u{e9}l\u{e9}"))
    );
    assert!(fingerprint_found(Some(vec![0xc3])).is_none());
    assert!(fingerprint_found(None).is_none());
    assert_eq!(duration_found(Some(vec![0, 0, 0, 0, 0, 0, 2, 129])), Some(641));
    assert_eq!(duration_found(Some(vec![2, 129])), None);
    assert_eq!(duration_found(None), None);
}

#[test]
fn disabled_cache_says_that_it_is_disabled() {
    let mut db = Db::default();
    let hash = hash_of("a song");
    assert_eq!(db.try_get_duration(&hash), Err(CacheError::Disabled));
    assert_eq!(db.try_insert_duration(&hash, 15), Err(CacheError::Disabled));
    assert_eq!(db.try_get_acoustid(&hash).map(text), Err(CacheError::Disabled));
    assert_eq!(db.try_insert_acoustid(&hash, id("AQAB")).map(text), Err(CacheError::Disabled));
    assert_eq!(db.try_get_duration(&hash), Err(CacheError::Disabled));
}

#[test]
fn backed_cache_tells_nothing_cached_from_no_answer() {
    let mut db = Db::open(&store_path("backed_cache_tells_nothing_cached"));
    let never = hash_of("never cached");
    assert_eq!(db.try_get_duration(&never), Ok(None));
    assert_eq!(db.try_get_acoustid(&never).map(text), Ok(None));
    let hash = hash_of("cached here");
    assert!(db.try_insert_duration(&hash, 7).is_ok());
    assert_eq!(db.try_insert_duration(&hash, 8), Ok(Some(7)));
    assert_eq!(db.try_get_duration(&hash), Ok(Some(8)));
    assert!(db.try_insert_acoustid(&hash, id("one")).is_ok());
    assert_eq!(db.try_insert_acoustid(&hash, id("two")).map(text), Ok(Some(String::from("one"))));
    assert_eq!(db.try_get_acoustid(&hash).map(text), Ok(Some(String::from("two"))));
}

#[test]
fn caches_at_different_paths_are_apart() {
    let hash = hash_of("kept at one path only");
    {
        let mut here = Db::open(&store_path("different_paths_here"));
        assert!(here.is_backed());
        let _ = here.insert_duration(&hash, 77);
        assert_eq!(here.get_duration(&hash), Some(77));
    }
    let there = Db::open(&store_path("different_paths_there"));
    assert!(there.is_backed());
    assert_eq!(there.get_duration(&hash), None);
    drop(there);
    let here_again = Db::open(&store_path("different_paths_here"));
    assert_eq!(here_again.get_duration(&hash), Some(77));
}
