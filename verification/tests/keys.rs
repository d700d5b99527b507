use nub_cook::keys::{
    cache_key, cache_preimage, key_of_digest, key_tail, perry_stamp, perry_stamp_preimage,
    stamp_of_digest, verdict_key, PerryStat,
};

fn stat(path: &str, mtime: u128, len: u64) -> PerryStat<String> {
    PerryStat { path: path.to_string(), mtime, len }
}

#[test]
fn key_is_the_digest_of_source_version_and_flags() {
    assert_eq!(
        cache_preimage(b"console.log(1)", "perry 0.5.1180", &Vec::new()),
        b"nub-cook-v1\0console.log(1)\0perry\0perry 0.5.1180\0flags\0".to_vec()
    );
    assert_eq!(
        cache_key(b"console.log(1)", "perry 0.5.1180"),
        "cook/206c30f556383b5ae3ba5ab2e727af012c15ecd79793f2b1787786b26b0d23ac"
    );
    assert_eq!(key_of_digest(&[0xab, 0x01]), "cook/ab01");
}

#[test]
fn flags_are_part_of_the_preimage() {
    let flags = vec!["--opt".to_string(), "-O3".to_string()];
    assert_eq!(
        cache_preimage(b"s", "v", &flags),
        b"nub-cook-v1\0s\0perry\0v\0flags\0--opt -O3".to_vec()
    );
    assert_ne!(
        cache_preimage(b"s", "v", &flags),
        cache_preimage(b"s", "v", &Vec::new())
    );
}

#[test]
fn source_and_version_are_told_apart() {
    let none = Vec::new();
    assert_ne!(
        cache_preimage(b"xperry 1", "perry 2", &none),
        cache_preimage(b"x", "perry 1perry 2", &none)
    );
    // Only a version that holds the mark itself can pass for another pair.
    assert_eq!(
        cache_preimage(b"", "perry\0x", &none),
        cache_preimage(b"\0perry", "x", &none)
    );
}

#[test]
fn stamp_is_the_digest_of_path_time_and_size() {
    let perry = stat("/usr/bin/perry", 1_750_000_000_000_000_001, 1_234_567);
    let mut bytes = b"/usr/bin/perry\0".to_vec();
    bytes.extend_from_slice(&1_750_000_000_000_000_001u128.to_le_bytes());
    bytes.push(0);
    bytes.extend_from_slice(&1_234_567u64.to_le_bytes());
    assert_eq!(perry_stamp_preimage(&perry), bytes);
    assert_eq!(
        perry_stamp(&perry),
        "cook-perry-version/e6a7a981ee8370dec7a1955f0b9a4aa5f98f3069fdc62b545965be768b2629c9"
    );
    assert_eq!(stamp_of_digest(&[0x00, 0xff]), "cook-perry-version/00ff");
}

#[test]
fn an_upgrade_in_place_changes_the_stamp() {
    let before = perry_stamp(&stat("/p", 1, 2));
    assert_ne!(before, perry_stamp(&stat("/p", 3, 2)));
    assert_ne!(before, perry_stamp(&stat("/p", 1, 4)));
    assert_ne!(before, perry_stamp(&stat("/q", 1, 2)));
    assert_eq!(before, perry_stamp(&stat("/p", 1, 2)));
}

#[test]
fn verdict_and_file_name_are_read_off_the_key() {
    assert_eq!(key_tail("cook/ab01"), "ab01");
    assert_eq!(verdict_key("cook/ab01"), "cook-verdict/ab01");
    assert_eq!(key_tail("no-slash"), "no-slash");
    assert_eq!(key_tail("ends/"), "");
    assert_eq!(key_tail("a/b/c"), "c");
    assert_eq!(key_tail(""), "");
    let key = cache_key(b"x", "v");
    assert_eq!(key.len(), 69);
    assert_eq!(perry_stamp(&stat("/p", 1, 2)).len(), 83);
    assert_eq!(key_tail(&key).len(), 64);
    assert_eq!(verdict_key(&key), format!("cook-verdict/{}", key_tail(&key)));
}
