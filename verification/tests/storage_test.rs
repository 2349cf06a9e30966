use summer_sa_token::storage::ttl_from_redis;
use summer_sa_token::{
    apply_storage_prefix, apply_storage_prefix_to_pattern, normalize_storage_prefix,
    strip_storage_prefix, SummerRedisStorage,
};

#[test]
fn normalizes_storage_prefix() {
    assert_eq!(
        normalize_storage_prefix(Some("demo".to_string())),
        Some("demo:".to_string())
    );
    assert_eq!(
        normalize_storage_prefix(Some("demo:".to_string())),
        Some("demo:".to_string())
    );
    assert_eq!(normalize_storage_prefix(Some(String::new())), None);
    assert_eq!(normalize_storage_prefix(None), None);
}

#[test]
fn applies_prefix_to_key() {
    assert_eq!(
        apply_storage_prefix(Some("demo:"), false, "sa:token:abc"),
        "demo:sa:token:abc"
    );
    assert_eq!(
        apply_storage_prefix(Some("demo:"), true, "sa:token:abc"),
        "demo:token:abc"
    );
    assert_eq!(
        apply_storage_prefix(None, false, "sa:token:abc"),
        "sa:token:abc"
    );
}

#[test]
fn applies_prefix_to_pattern() {
    assert_eq!(
        apply_storage_prefix_to_pattern(Some("demo:"), false, "sa:*"),
        "demo:sa:*"
    );
    assert_eq!(
        apply_storage_prefix_to_pattern(Some("demo:"), true, "sa:*"),
        "demo:*"
    );
    assert_eq!(apply_storage_prefix_to_pattern(None, false, "sa:*"), "sa:*");
}

#[test]
fn strips_prefix_from_key() {
    assert_eq!(
        strip_storage_prefix(Some("demo:"), false, "demo:sa:token:abc"),
        "sa:token:abc"
    );
    assert_eq!(
        strip_storage_prefix(Some("demo:"), true, "demo:token:abc"),
        "sa:token:abc"
    );
    assert_eq!(
        strip_storage_prefix(Some("demo:"), true, "sa:token:abc"),
        "sa:token:abc"
    );
    assert_eq!(
        strip_storage_prefix(None, false, "sa:token:abc"),
        "sa:token:abc"
    );
}

#[test]
fn normalizing_twice_changes_nothing() {
    for p in ["", "demo", "demo:", "a:b", ":"] {
        let once = normalize_storage_prefix(Some(p.to_string()));
        let twice = normalize_storage_prefix(once.clone());
        assert_eq!(once, twice);
    }
    assert_eq!(normalize_storage_prefix(Some(":".to_string())), Some(":".to_string()));
}

#[test]
fn empty_prefix_leaves_keys_alone() {
    assert_eq!(apply_storage_prefix(Some(""), true, "sa:token:abc"), "sa:token:abc");
    assert_eq!(strip_storage_prefix(Some(""), true, "demo:token:abc"), "demo:token:abc");
}

#[test]
fn rewrite_keeps_keys_outside_the_root() {
    assert_eq!(apply_storage_prefix(Some("demo:"), true, "other:key"), "demo:other:key");
    assert_eq!(strip_storage_prefix(Some("demo:"), false, "other:key"), "other:key");
}

#[test]
fn stored_keys_come_back_unchanged() {
    let keys = ["sa:token:abc", "sa:session:user1", "sa:", "sa:x"];
    for prefix in [None, Some("demo:"), Some("app")] {
        for rewrite in [false, true] {
            for key in keys {
                let stored = apply_storage_prefix(prefix, rewrite, key);
                assert_eq!(strip_storage_prefix(prefix, rewrite, &stored), key);
            }
        }
    }
    // Without the rewrite any key comes back.
    let stored = apply_storage_prefix(Some("demo:"), false, "plain");
    assert_eq!(strip_storage_prefix(Some("demo:"), false, &stored), "plain");
}

#[test]
fn rewrite_does_not_round_trip_a_doubled_root() {
    let stored = apply_storage_prefix(Some("demo:"), true, "sa:sa:x");
    assert_eq!(stored, "demo:sa:x");
    assert_eq!(strip_storage_prefix(Some("demo:"), true, &stored), "sa:x");
}

#[test]
fn unicode_keys_are_prefixed_by_characters() {
    assert_eq!(apply_storage_prefix(Some("dé:"), true, "sa:ключ"), "dé:ключ");
    assert_eq!(strip_storage_prefix(Some("dé:"), true, "dé:ключ"), "sa:ключ");
}

#[test]
fn storage_normalizes_its_prefix() {
    let storage = SummerRedisStorage::new((), Some("demo".to_string()), false);
    assert_eq!(storage.prefix(), Some("demo:"));
    assert!(!storage.rewrite_prefix());
    let storage = SummerRedisStorage::new(7u8, Some(String::new()), true);
    assert_eq!(storage.prefix(), None);
    assert_eq!(*storage.client(), 7u8);
}

#[test]
fn storage_maps_keys_both_ways() {
    let storage = SummerRedisStorage::new((), Some("demo".to_string()), true);
    assert_eq!(storage.storage_key("sa:token:abc"), "demo:token:abc");
    assert_eq!(
        storage.storage_keys(&["sa:a", "sa:b", "c"]),
        vec!["demo:a".to_string(), "demo:b".to_string(), "demo:c".to_string()]
    );
    assert_eq!(
        storage.logical_keys(&["demo:a".to_string(), "demo:sa:b".to_string(), "x".to_string()]),
        vec!["sa:a".to_string(), "sa:b".to_string(), "x".to_string()]
    );
    assert_eq!(storage.storage_pattern("sa:token:*"), "demo:token:*");
    assert_eq!(storage.clear_pattern(), "demo:*");

    let plain = SummerRedisStorage::new((), Some("demo:".to_string()), false);
    assert_eq!(plain.clear_pattern(), "demo:sa:*");
    let none = SummerRedisStorage::new((), None, true);
    assert_eq!(none.clear_pattern(), "sa:*");
    assert_eq!(none.storage_keys(&[]), Vec::<String>::new());
}

#[test]
fn ttl_replies_map_to_expiries() {
    assert_eq!(ttl_from_redis(-2), None);
    assert_eq!(ttl_from_redis(-1), None);
    assert_eq!(ttl_from_redis(0), Some(0));
    assert_eq!(ttl_from_redis(-3), Some(0));
    assert_eq!(ttl_from_redis(42), Some(42));
    assert_eq!(ttl_from_redis(i64::MAX), Some(i64::MAX as u64));
}
