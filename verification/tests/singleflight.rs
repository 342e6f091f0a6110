use graphann::singleflight::{FlightTable, Role};

#[test]
fn finished_flight_lets_the_next_caller_lead() {
    let mut table: FlightTable<u32> = FlightTable::new();
    assert!(matches!(table.join("k"), Role::Leader));
    table.start("k".to_string(), 1);
    assert_eq!(table.finish("k"), Some(1));
    assert!(matches!(table.join("k"), Role::Leader));
    assert_eq!(table.finish("k"), None);
}

#[test]
fn distinct_keys_fly_independently() {
    let mut table: FlightTable<&str> = FlightTable::new();
    table.start("a".to_string(), "ha");
    assert!(matches!(table.join("b"), Role::Leader));
    table.start("b".to_string(), "hb");
    assert!(matches!(table.join("a"), Role::Follower(h) if *h == "ha"));
    assert_eq!(table.finish("a"), Some("ha"));
    assert!(matches!(table.join("b"), Role::Follower(h) if *h == "hb"));
}

#[test]
fn followers_wait_on_the_leaders_handle() {
    let mut table: FlightTable<u32> = FlightTable::new();
    table.start("k".to_string(), 42);
    assert!(matches!(table.join("k"), Role::Follower(h) if *h == 42));
    assert_eq!(table.finish("k"), Some(42));
}
