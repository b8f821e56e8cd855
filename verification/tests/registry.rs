use tcp_over_ws_rust::registry::{TunnelInfo, TunnelMap, STALE_CONNECTION_TIMEOUT};

const SECOND: u128 = 1_000_000_000;

fn known(map: &TunnelMap, id: &str) -> Option<u128> {
    map.get(id).map(|info: TunnelInfo| info.last_activity)
}

#[test]
fn insert_get_remove() {
    let mut map = TunnelMap::new();
    assert_eq!(known(&map, "T-1"), None);
    map.insert("T-1".to_string(), 5);
    map.insert("U-2".to_string(), 6);
    assert_eq!(known(&map, "T-1"), Some(5));
    assert_eq!(known(&map, "U-2"), Some(6));
    map.insert("T-1".to_string(), 9);
    assert_eq!(known(&map, "T-1"), Some(9));
    map.remove("T-1");
    assert_eq!(known(&map, "T-1"), None);
    assert_eq!(known(&map, "U-2"), Some(6));
    map.remove("T-1");
    assert_eq!(known(&map, "U-2"), Some(6));
}

#[test]
fn touching_moves_the_time_and_adds_nothing() {
    let mut map = TunnelMap::new();
    map.touch("T-1", 3);
    assert_eq!(known(&map, "T-1"), None);
    map.insert("T-1".to_string(), 5);
    map.insert("T-2".to_string(), 5);
    map.touch("T-1", 8);
    assert_eq!(known(&map, "T-1"), Some(8));
    assert_eq!(known(&map, "T-2"), Some(5));
}

#[test]
fn pruning_takes_the_stale_only() {
    assert_eq!(STALE_CONNECTION_TIMEOUT, 120 * SECOND);
    let mut map = TunnelMap::new();
    map.insert("old".to_string(), 0);
    map.insert("edge".to_string(), 1);
    map.insert("new".to_string(), 100 * SECOND);
    map.insert("future".to_string(), 500 * SECOND);
    let removed = map.prune(120 * SECOND + 1);
    assert_eq!(removed, vec!["old".to_string()]);
    assert_eq!(known(&map, "old"), None);
    assert_eq!(known(&map, "edge"), Some(1));
    assert_eq!(known(&map, "new"), Some(100 * SECOND));
    assert_eq!(known(&map, "future"), Some(500 * SECOND));
    let mut removed = map.prune(300 * SECOND);
    removed.sort();
    assert_eq!(removed, vec!["edge".to_string(), "new".to_string()]);
    assert!(map.prune(300 * SECOND).is_empty());
}

#[test]
fn activity_prevents_pruning() {
    let mut map = TunnelMap::new();
    map.insert("T-1".to_string(), 0);
    map.touch("T-1", 100 * SECOND);
    assert!(map.prune(220 * SECOND).is_empty());
    assert_eq!(map.prune(220 * SECOND + 1), vec!["T-1".to_string()]);
    map.touch("T-1", 221 * SECOND);
    assert_eq!(known(&map, "T-1"), None);
}

#[test]
fn a_clock_that_runs_back_makes_nothing_stale() {
    let mut map = TunnelMap::new();
    map.insert("T-1".to_string(), 1000 * SECOND);
    assert!(map.prune(0).is_empty());
    assert_eq!(known(&map, "T-1"), Some(1000 * SECOND));
}
