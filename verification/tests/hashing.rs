use risto::{AcoustId, FileHash, Song};
use std::hash::{BuildHasher, BuildHasherDefault};
use twox_hash::XxHash64;

fn reference(data: &Vec<u8>) -> String {
    let hasher: BuildHasherDefault<XxHash64> = Default::default();
    hasher.hash_one(data).to_string()
}

#[test]
fn same_content_has_the_same_hash() {
    let a: Vec<u8> = vec![1, 2, 3, 4, 5];
    let b: Vec<u8> = vec![1, 2, 3, 4, 5];
    assert_eq!(FileHash::of(&a).to_string(), FileHash::of(&b).to_string());
    assert_eq!(FileHash::of(&a).to_string(), FileHash::of(&a).to_string());
}

#[test]
fn one_differing_byte_changes_the_hash() {
    let a: Vec<u8> = vec![1, 2, 3, 4, 5];
    let b: Vec<u8> = vec![1, 2, 3, 4, 6];
    assert_ne!(FileHash::of(&a).to_string(), FileHash::of(&b).to_string());
    let shorter: Vec<u8> = vec![1, 2, 3, 4];
    assert_ne!(FileHash::of(&a).to_string(), FileHash::of(&shorter).to_string());
}

#[test]
fn hash_is_the_decimal_digest() {
    for data in [Vec::new(), vec![0u8], vec![7u8; 1000], b"some song".to_vec()] {
        let hash = FileHash::of(&data);
        assert_eq!(hash.to_string(), reference(&data));
        assert_eq!(hash.as_str(), reference(&data).as_str());
        assert_eq!(hash.as_bytes(), reference(&data).as_bytes());
        assert!(hash.as_str().chars().all(|c| c.is_ascii_digit()));
        assert!(hash.as_str() == "0" || !hash.as_str().starts_with('0'));
    }
}

#[test]
fn hash_is_not_the_content() {
    let data: Vec<u8> = b"12345".to_vec();
    assert_ne!(FileHash::of(&data).to_string(), "12345");
}

#[test]
fn song_hash_is_the_file_hash() {
    let data: Vec<u8> = b"content of a file".to_vec();
    assert_eq!(Song::hash(&data).to_string(), FileHash::of(&data).to_string());
}

#[test]
fn acoustid_keeps_its_text() {
    let id = AcoustId::new(String::from("AQABz0qUkZK4oOfhL"));
    assert_eq!(id.as_str(), "AQABz0qUkZK4oOfhL");
    assert_eq!(id.to_string(), "AQABz0qUkZK4oOfhL");
    assert_eq!(id.clone().to_string(), "AQABz0qUkZK4oOfhL");
}
