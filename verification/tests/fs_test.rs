use ripsed::discovery::{passes_ignore_filter, DiscoveryOptions, WalkStrategy};
use ripsed::reader::{is_binary_sample, strip_utf8_bom, uses_mmap, BINARY_CHECK_SIZE};

#[test]
fn binary_sample_detection() {
    assert!(is_binary_sample(b"\x00\x01\x02\x03"));
    assert!(!is_binary_sample(b"just text\n"));
    assert!(!is_binary_sample(b""));
    let mut data = vec![b'X'; BINARY_CHECK_SIZE + 1];
    data[BINARY_CHECK_SIZE] = 0;
    assert!(!is_binary_sample(&data));
    data[BINARY_CHECK_SIZE - 1] = 0;
    assert!(is_binary_sample(&data));
}

#[test]
fn bom_is_stripped() {
    assert_eq!(strip_utf8_bom(b"\xEF\xBB\xBFHello"), b"Hello");
    assert_eq!(strip_utf8_bom(b"No BOM"), b"No BOM");
    assert_eq!(strip_utf8_bom(b"\xEF\xBB\xBF"), b"");
}

#[test]
fn mmap_threshold() {
    assert!(!uses_mmap(5));
    assert!(uses_mmap(1024 * 1024));
}

#[test]
fn ignore_filter() {
    let pattern = Some("*.log".to_string());
    assert!(!passes_ignore_filter(&pattern, "/tmp/x/skip.log"));
    assert!(passes_ignore_filter(&pattern, "/tmp/x/keep.txt"));
    assert!(passes_ignore_filter(&None, "/tmp/x/skip.log"));
}

#[test]
fn discovery_defaults() {
    let o = DiscoveryOptions::with_root("/r".into());
    assert_eq!(o.root, "/r");
    assert!(o.gitignore);
    assert!(!o.hidden);
    assert!(!o.follow_links);
    assert_ne!(WalkStrategy::Auto, WalkStrategy::ForceParallel);
}
