use qpmu::ActivationStore;

#[test]
fn first_activation_gives_frequency_one() {
    let mut store = ActivationStore::new();
    assert_eq!(store.frequency(&"a".to_string()), 0);
    assert_eq!(store.last_use(&"a".to_string()), None);
    assert_eq!(store.record("a".to_string(), 100), Some(1));
    assert_eq!(store.frequency(&"a".to_string()), 1);
    assert_eq!(store.last_use(&"a".to_string()), Some(100));
}

#[test]
fn each_activation_adds_exactly_one() {
    let mut store = ActivationStore::new();
    let titles = ["a", "b", "a", "c", "a", "b"];
    for (t, title) in titles.iter().enumerate() {
        store.record(title.to_string(), t as i64);
    }
    assert_eq!(store.frequency(&"a".to_string()), 3);
    assert_eq!(store.frequency(&"b".to_string()), 2);
    assert_eq!(store.frequency(&"c".to_string()), 1);
    assert_eq!(store.frequency(&"d".to_string()), 0);
    assert_eq!(store.last_use(&"a".to_string()), Some(4));
    assert_eq!(store.last_use(&"b".to_string()), Some(5));
}

#[test]
fn many_activations_of_one_title_are_all_counted() {
    let mut store = ActivationStore::new();
    for i in 0..1000 {
        assert_eq!(store.record("same".to_string(), i), Some(i as u64 + 1));
    }
    assert_eq!(store.frequency(&"same".to_string()), 1000);
}
