use cleanx::digest::{hash_bytes, hash_chunks, ContentHasher, READ_BUFFER_SIZE};
use cleanx::plugin::{SafetyLevel, ScanConfig, ScannerCategory};
use cleanx::scanner::duplicates::{DuplicatesScanner, HashedFile, MIN_SIZE};
use cleanx::time::Timestamp;

fn at(secs: i64) -> Option<Timestamp> {
    Some(Timestamp { secs, nanos: 0 })
}

fn hashed(path: &str, content: &[u8], modified: Option<Timestamp>) -> HashedFile {
    HashedFile {
        path: path.to_string(),
        size: content.len() as u64,
        hash: hash_bytes(content),
        last_accessed: at(9_999),
        last_modified: modified,
    }
}

#[test]
fn digest_of_abc() {
    assert_eq!(
        hash_bytes(b"abc"),
        "ba7816bf8f01cfea414140de5dae2223b00361a396177a9cb410ff61f20015ad"
    );
    assert_eq!(
        hash_bytes(b""),
        "e3b0c44298fc1c149afbf4c8996fb92427ae41e4649b934ca495991b7852b855"
    );
}

#[test]
fn digest_of_chunks_is_digest_of_the_whole() {
    let data: Vec<u8> = (0..20_000u32).map(|i| (i % 251) as u8).collect();
    let chunks: Vec<Vec<u8>> = data.chunks(READ_BUFFER_SIZE).map(|c| c.to_vec()).collect();
    assert_eq!(chunks.len(), 3);
    assert_eq!(hash_chunks(&chunks), hash_bytes(&data));
    let mut hasher = ContentHasher::new();
    hasher.update(&data[..1]);
    hasher.update(&data[1..]);
    hasher.update(&[]);
    assert_eq!(hasher.finish(), hash_bytes(&data));
    assert_eq!(hash_chunks(&Vec::new()), hash_bytes(b""));
    assert_ne!(hash_bytes(&data), hash_bytes(&data[1..]));
}

#[test]
fn two_copies_and_a_distinct_file() {
    let same = vec![7u8; 2048];
    let other = vec![9u8; 2048];
    let files = vec![
        hashed("/docs/f1.bin", &same, at(100)),
        hashed("/docs/f2.bin", &same, at(200)),
        hashed("/docs/f3.bin", &other, at(300)),
    ];
    let found = DuplicatesScanner::with_home("/home/u").scan(&files);
    assert_eq!(found.len(), 1);
    let f = &found[0];
    assert_eq!(f.id, "dup_0");
    assert_eq!(f.path, "/docs/f1.bin");
    assert_eq!(f.name, "f1.bin (1 duplicates)");
    assert_eq!(f.size, 2048);
    assert_eq!(f.file_count, 1);
    assert_eq!(f.safety_level, SafetyLevel::Caution);
    assert_eq!(f.category, ScannerCategory::System);
    assert_eq!(f.last_modified, at(100));
    assert_eq!(f.last_accessed, at(9_999));
    assert_eq!(f.metadata.get("scanner_id").unwrap(), "duplicates");
    assert_eq!(f.metadata.get("group_id").unwrap(), "0");
    assert_eq!(f.metadata.get("duplicate_paths").unwrap(), "/docs/f2.bin");
    assert_eq!(f.metadata.get("original_path").unwrap(), "/docs/f1.bin");
    assert_eq!(f.metadata.len(), 4);
}

#[test]
fn the_oldest_copy_is_the_original_wherever_it_stands() {
    let same = vec![1u8; 1500];
    let files = vec![
        hashed("/a/new.bin", &same, at(500)),
        hashed("/a/old.bin", &same, at(100)),
        hashed("/a/mid.bin", &same, at(300)),
    ];
    let found = DuplicatesScanner::with_home("/home/u").scan(&files);
    assert_eq!(found.len(), 1);
    assert_eq!(found[0].path, "/a/old.bin");
    assert_eq!(found[0].name, "old.bin (2 duplicates)");
    assert_eq!(found[0].size, 3000);
    assert_eq!(found[0].file_count, 2);
    assert_eq!(found[0].metadata.get("duplicate_paths").unwrap(), "/a/mid.bin|/a/new.bin");
}

#[test]
fn copies_of_the_same_age_keep_their_order() {
    let same = vec![1u8; 1500];
    let files = vec![
        hashed("/a/first.bin", &same, at(100)),
        hashed("/a/second.bin", &same, at(100)),
        hashed("/a/unknown.bin", &same, None),
    ];
    let found = DuplicatesScanner::with_home("/home/u").scan(&files);
    // a file whose time is unknown counts as written in 1970
    assert_eq!(found[0].path, "/a/unknown.bin");
    assert_eq!(found[0].last_modified, None);
    assert_eq!(found[0].metadata.get("duplicate_paths").unwrap(), "/a/first.bin|/a/second.bin");
}

#[test]
fn groups_are_numbered_in_the_order_of_their_first_files_and_listed_by_size() {
    let small = vec![1u8; 1024];
    let large = vec![2u8; 4096];
    let files = vec![
        hashed("/a/s1", &small, at(1)),
        hashed("/a/l1", &large, at(1)),
        hashed("/a/s2", &small, at(2)),
        hashed("/a/l2", &large, at(2)),
        hashed("/a/s3", &small, at(3)),
    ];
    let found = DuplicatesScanner::with_home("/home/u").scan(&files);
    assert_eq!(found.len(), 2);
    assert_eq!((found[0].id.as_str(), found[0].size), ("dup_1", 4096));
    assert_eq!((found[1].id.as_str(), found[1].size), ("dup_0", 2048));
    assert_eq!(found[1].file_count, 2);
}

#[test]
fn same_size_with_different_content_is_no_duplicate() {
    let files = vec![
        hashed("/a/x", &vec![1u8; 2000], at(1)),
        hashed("/a/y", &vec![2u8; 2000], at(2)),
    ];
    assert!(DuplicatesScanner::with_home("/home/u").scan(&files).is_empty());
    assert!(DuplicatesScanner::with_home("/home/u").scan(&Vec::new()).is_empty());
}

#[test]
fn only_files_that_share_their_size_are_read() {
    let sizes = vec![10u64, 20, 10, 30];
    assert!(DuplicatesScanner::shares_size(&sizes, 0));
    assert!(!DuplicatesScanner::shares_size(&sizes, 1));
    assert!(DuplicatesScanner::shares_size(&sizes, 2));
    assert!(!DuplicatesScanner::shares_size(&sizes, 3));
    assert!(!DuplicatesScanner::shares_size(&vec![5], 0));
}

#[test]
fn candidates_of_the_duplicate_search() {
    let scanner = DuplicatesScanner::with_home("/home/u");
    let mut config = ScanConfig::default();
    config.min_size = 0;
    config.excluded_paths = vec!["/home/u/Documents/private".to_string()];
    assert_eq!(MIN_SIZE, 1024);
    assert!(scanner.is_candidate(&config, "/home/u/Documents/a.txt", 1024));
    assert!(!scanner.is_candidate(&config, "/home/u/Documents/a.txt", 1023));
    assert!(!scanner.is_candidate(&config, "/home/u/Documents/.hidden", 5000));
    assert!(!scanner.is_candidate(&config, "/home/u/Documents/private/a.txt", 5000));
    assert!(scanner.is_candidate(&config, "/home/u/Documents/private2/a.txt", 5000));
    config.min_size = 4096;
    assert!(!scanner.is_candidate(&config, "/home/u/Documents/a.txt", 4095));
    assert!(scanner.is_candidate(&config, "/home/u/Documents/a.txt", 4096));
}

#[test]
fn duplicate_scanner_identity() {
    let scanner = DuplicatesScanner::with_home("/home/u");
    assert_eq!(scanner.id(), "duplicates");
    assert_eq!(scanner.name(), "Duplicates");
    assert_eq!(scanner.category(), ScannerCategory::System);
    assert_eq!(scanner.estimated_secs(), 30);
    assert_eq!(
        scanner.locations().clone(),
        vec![
            "/home/u/Documents",
            "/home/u/Downloads",
            "/home/u/Desktop",
            "/home/u/Pictures",
            "/home/u/Movies",
            "/home/u/Music"
        ]
    );
    assert!(scanner.is_available(&vec![false, true]));
    assert!(!scanner.is_available(&vec![false, false]));
    assert!(!scanner.is_available(&vec![]));
}

#[test]
fn no_more_than_a_hundred_groups_are_handed_out() {
    let scanner = DuplicatesScanner::with_home("/Users/u");
    let mut files = Vec::new();
    for i in 0..120u32 {
        // group i holds two copies of i + 1 bytes
        let content = vec![(i % 251) as u8; (i + 1) as usize];
        let mut tagged = content.clone();
        tagged[0] = (i / 251) as u8 + 1;
        files.push(hashed(&format!("/d/{}/a", i), &tagged, at(1)));
        files.push(hashed(&format!("/d/{}/b", i), &tagged, at(2)));
    }
    let found = scanner.scan(&files);
    assert_eq!(found.len(), 100);
    assert_eq!(found[0].size, 120);
    assert_eq!(found[99].size, 21);
    for pair in found.windows(2) {
        assert!(pair[0].size >= pair[1].size);
    }
}
