use openapiv3::ordered_map::OrderedMap;

fn sample() -> OrderedMap<u32> {
    let mut m = OrderedMap::new();
    m.insert("zeta".to_owned(), 1);
    m.insert("alpha".to_owned(), 2);
    m.insert("mid".to_owned(), 3);
    m
}

fn keys_of<V>(m: &OrderedMap<V>) -> Vec<String> {
    let mut out = Vec::new();
    let mut i = 0;
    while let Some((k, _)) = m.get_index(i) {
        out.push(k.clone());
        i += 1;
    }
    out
}

#[test]
fn new_map_is_empty() {
    let m: OrderedMap<u8> = OrderedMap::new();
    assert!(m.is_empty());
    assert_eq!(m.len(), 0);
    assert_eq!(m.get("a"), None);
    assert_eq!(m.get_index(0), None);
    assert_eq!(m, OrderedMap::default());
}

#[test]
fn insert_keeps_insertion_order() {
    let m = sample();
    assert_eq!(m.len(), 3);
    assert!(!m.is_empty());
    assert_eq!(keys_of(&m), vec!["zeta".to_owned(), "alpha".to_owned(), "mid".to_owned()]);
    assert_eq!(m.get_index(1), Some((&"alpha".to_owned(), &2)));
    assert_eq!(m.get_index(3), None);
}

#[test]
fn insert_of_a_new_key_returns_none() {
    let mut m = OrderedMap::new();
    assert_eq!(m.insert("a".to_owned(), 1), None);
    assert_eq!(m.insert("b".to_owned(), 2), None);
}

#[test]
fn insert_of_a_known_key_replaces_in_place() {
    let mut m = sample();
    assert_eq!(m.insert("alpha".to_owned(), 20), Some(2));
    assert_eq!(m.len(), 3);
    assert_eq!(keys_of(&m), vec!["zeta".to_owned(), "alpha".to_owned(), "mid".to_owned()]);
    assert_eq!(m.get("alpha"), Some(&20));
    assert_eq!(m.get("zeta"), Some(&1));
    assert_eq!(m.get("mid"), Some(&3));

    assert_eq!(m.insert("mid".to_owned(), 30), Some(3));
    assert_eq!(m.get_index(2), Some((&"mid".to_owned(), &30)));
    assert_eq!(m.insert("zeta".to_owned(), 10), Some(1));
    assert_eq!(m.get_index(0), Some((&"zeta".to_owned(), &10)));
    assert_eq!(m.len(), 3);
}

#[test]
fn get_finds_by_key() {
    let m = sample();
    assert_eq!(m.get("zeta"), Some(&1));
    assert_eq!(m.get("mid"), Some(&3));
    assert_eq!(m.get("Zeta"), None);
    assert_eq!(m.get(""), None);
}

#[test]
fn into_entries_gives_the_pairs_in_order() {
    assert_eq!(
        sample().into_entries(),
        vec![("zeta".to_owned(), 1), ("alpha".to_owned(), 2), ("mid".to_owned(), 3)]
    );
    assert_eq!(OrderedMap::<u8>::new().into_entries(), vec![]);
}

#[test]
fn map_values_keeps_keys_and_order() {
    let doubled = sample().map_values(|v| u64::from(v) * 2);
    assert_eq!(
        doubled.into_entries(),
        vec![("zeta".to_owned(), 2u64), ("alpha".to_owned(), 4), ("mid".to_owned(), 6)]
    );
    let empty: OrderedMap<u8> = OrderedMap::new();
    assert!(empty.map_values(|v| v).is_empty());
}

#[test]
fn try_map_values_succeeds_when_every_value_does() {
    let out: Result<OrderedMap<u32>, String> = sample().try_map_values(|v| Ok(v + 1));
    assert_eq!(
        out.map(|m| m.into_entries()),
        Ok(vec![("zeta".to_owned(), 2), ("alpha".to_owned(), 3), ("mid".to_owned(), 4)])
    );
}

#[test]
fn try_map_values_reports_the_first_failure() {
    let out: Result<OrderedMap<u32>, u32> =
        sample().try_map_values(|v| if v >= 2 { Err(v) } else { Ok(v) });
    assert_eq!(out, Err(2));
}

#[test]
fn try_map_values_stops_at_the_first_failure() {
    let calls = std::cell::Cell::new(0);
    let out: Result<OrderedMap<u32>, u32> = sample().try_map_values(|v| {
        calls.set(calls.get() + 1);
        if v == 2 {
            Err(v)
        } else {
            Ok(v)
        }
    });
    assert_eq!(out, Err(2));
    assert_eq!(calls.get(), 2);
}

#[test]
fn clone_is_equal() {
    let m = sample();
    let c = m.clone();
    assert_eq!(m, c);
    assert_eq!(keys_of(&c), keys_of(&m));
}

#[test]
fn maps_with_other_order_differ() {
    let mut a = OrderedMap::new();
    a.insert("x".to_owned(), 1);
    a.insert("y".to_owned(), 2);
    let mut b = OrderedMap::new();
    b.insert("y".to_owned(), 2);
    b.insert("x".to_owned(), 1);
    assert_ne!(a, b);
}
