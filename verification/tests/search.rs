use graphann::config::{CacheConfig, ClientBuilder};
use graphann::cache::TtlCache;
use graphann::search::{search_begin, search_end, SearchAction};
use graphann::singleflight::FlightTable;
use graphann::time::TimeSpan;

#[test]
fn coalesces_concurrent_calls() {
    // Ten identical searches start before the first one's request returns:
    // one leads and sends the request, the other nine wait on its flight.
    let mut cache: Option<TtlCache> = None;
    let mut flights: Option<FlightTable<u32>> = Some(FlightTable::new());
    let now = TimeSpan::zero();
    let mut leads = 0;
    let mut follows = 0;
    for caller in 0..10u32 {
        match search_begin(&mut cache, &mut flights, "k", now, 100 + caller) {
            SearchAction::Lead => leads += 1,
            SearchAction::Follow(h) => {
                assert_eq!(h, 100);
                follows += 1;
            }
            SearchAction::Hit(_) | SearchAction::Fetch => panic!("unexpected action"),
        }
    }
    assert_eq!(leads, 1);
    assert_eq!(follows, 9);
    // The leader's result reaches the waiters on the first caller's handle.
    let waiters = search_end(&mut cache, &mut flights, "k".to_string(), true, Some(vec![42]), now);
    assert_eq!(waiters, Some(100));
    // The next search leads a new flight.
    assert!(matches!(search_begin(&mut cache, &mut flights, "k", now, 7), SearchAction::Lead));
}

#[test]
fn cache_hit_answers_without_a_request() {
    let mut cache = Some(TtlCache::new(4, TimeSpan::from_secs(60)));
    let mut flights: Option<FlightTable<u32>> = Some(FlightTable::new());
    let t0 = TimeSpan::zero();
    assert!(matches!(search_begin(&mut cache, &mut flights, "k", t0, 1), SearchAction::Lead));
    assert_eq!(search_end(&mut cache, &mut flights, "k".to_string(), true, Some(vec![9]), t0), Some(1));
    match search_begin(&mut cache, &mut flights, "k", TimeSpan::from_secs(1), 2) {
        SearchAction::Hit(b) => assert_eq!(b, vec![9]),
        _ => panic!("expected a cache hit"),
    }
    // Past its lifetime the entry is gone and the search leads again.
    assert!(matches!(
        search_begin(&mut cache, &mut flights, "k", TimeSpan::from_secs(61), 3),
        SearchAction::Lead
    ));
}

#[test]
fn failures_are_not_cached_and_plain_fetches_fill_the_cache() {
    let mut cache = Some(TtlCache::new(4, TimeSpan::from_secs(60)));
    let mut flights: Option<FlightTable<u32>> = None;
    let t0 = TimeSpan::zero();
    assert!(matches!(search_begin(&mut cache, &mut flights, "k", t0, 1), SearchAction::Fetch));
    assert_eq!(search_end(&mut cache, &mut flights, "k".to_string(), false, None, t0), None);
    assert!(matches!(search_begin(&mut cache, &mut flights, "k", t0, 1), SearchAction::Fetch));
    assert_eq!(search_end(&mut cache, &mut flights, "k".to_string(), false, Some(vec![5]), t0), None);
    assert!(matches!(search_begin(&mut cache, &mut flights, "k", t0, 1), SearchAction::Hit(ref b) if b == &vec![5]));
}

#[test]
fn client_search_state_follows_the_configuration() {
    let plain = ClientBuilder::new("ua".to_string()).singleflight(false).into_config();
    let (cache, flights) = graphann::search::search_state::<u32>(&plain);
    assert!(cache.is_none() && flights.is_none());
    let cfg = CacheConfig::new(2, TimeSpan::from_secs(1)).unwrap();
    let both = ClientBuilder::new("ua".to_string()).cache(cfg).into_config();
    let (mut cache, mut flights) = graphann::search::search_state::<u32>(&both);
    assert!(cache.is_some() && flights.is_some());
    assert!(matches!(search_begin(&mut cache, &mut flights, "k", TimeSpan::zero(), 1), SearchAction::Lead));
}
