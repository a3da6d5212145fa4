use apod_og::cache::{Lookup, Source, TtlCache, DEFAULT_TTL};

fn hit_value(l: Lookup) -> Option<String> {
    match l {
        Lookup::Hit(v) => Some(v),
        _ => None,
    }
}

#[test]
fn first_lookup_fetches_then_hits_within_ttl() {
    let mut c = TtlCache::new(DEFAULT_TTL);
    assert!(matches!(c.lookup(Source::Astronomy, 1000), Lookup::Fetch));
    c.complete(Source::Astronomy, "u1".to_owned(), 1000);
    assert_eq!(hit_value(c.lookup(Source::Astronomy, 1000)).as_deref(), Some("u1"));
    assert_eq!(hit_value(c.lookup(Source::Astronomy, 4599)).as_deref(), Some("u1"));
}

#[test]
fn lookup_after_ttl_fetches_again() {
    let mut c = TtlCache::new(3600);
    assert!(matches!(c.lookup(Source::Astronomy, 0), Lookup::Fetch));
    c.complete(Source::Astronomy, "old".to_owned(), 0);
    assert!(matches!(c.lookup(Source::Astronomy, 3600), Lookup::Fetch));
    c.complete(Source::Astronomy, "new".to_owned(), 3600);
    assert_eq!(hit_value(c.lookup(Source::Astronomy, 3601)).as_deref(), Some("new"));
}

#[test]
fn concurrent_lookups_during_a_miss_fetch_once() {
    let mut c = TtlCache::new(3600);
    let mut fetches: u32 = 0;
    for t in 0..10u64 {
        if matches!(c.lookup(Source::Cats, t), Lookup::Fetch) {
            fetches += 1;
        }
    }
    assert_eq!(fetches, 1);
    c.complete(Source::Cats, "cat".to_owned(), 10);
    for t in 10..20u64 {
        assert_eq!(hit_value(c.lookup(Source::Cats, t)).as_deref(), Some("cat"));
    }
}

#[test]
fn waiting_caller_sees_stale_entry_as_wait() {
    let mut c = TtlCache::new(10);
    assert!(matches!(c.lookup(Source::Cats, 0), Lookup::Fetch));
    c.complete(Source::Cats, "a".to_owned(), 0);
    assert!(matches!(c.lookup(Source::Cats, 10), Lookup::Fetch));
    assert!(matches!(c.lookup(Source::Cats, 11), Lookup::Wait));
}

#[test]
fn failed_fetch_stores_nothing_and_allows_a_retry() {
    let mut c = TtlCache::new(3600);
    assert!(matches!(c.lookup(Source::Astronomy, 5), Lookup::Fetch));
    c.settle(Source::Astronomy, None, 6);
    assert!(c.astronomy.entry.is_none());
    assert!(matches!(c.lookup(Source::Astronomy, 7), Lookup::Fetch));
    c.settle(Source::Astronomy, Some("ok".to_owned()), 8);
    assert_eq!(hit_value(c.lookup(Source::Astronomy, 9)).as_deref(), Some("ok"));
}

#[test]
fn sources_do_not_share_entries_or_clocks() {
    let mut c = TtlCache::new(100);
    assert!(matches!(c.lookup(Source::Astronomy, 0), Lookup::Fetch));
    c.complete(Source::Astronomy, "sky".to_owned(), 0);
    assert!(matches!(c.lookup(Source::Cats, 50), Lookup::Fetch));
    c.complete(Source::Cats, "cat".to_owned(), 50);
    assert!(matches!(c.lookup(Source::Astronomy, 120), Lookup::Fetch));
    assert_eq!(hit_value(c.lookup(Source::Cats, 120)).as_deref(), Some("cat"));
    c.complete(Source::Astronomy, "sky2".to_owned(), 120);
    assert_eq!(c.cats.entry.as_ref().map(|e| e.created_at), Some(50));
    assert!(matches!(c.lookup(Source::Cats, 150), Lookup::Fetch));
}

#[test]
fn zero_ttl_never_hits() {
    let mut c = TtlCache::new(0);
    assert!(matches!(c.lookup(Source::Astronomy, 0), Lookup::Fetch));
    c.complete(Source::Astronomy, "x".to_owned(), 0);
    assert!(matches!(c.lookup(Source::Astronomy, 0), Lookup::Fetch));
}
