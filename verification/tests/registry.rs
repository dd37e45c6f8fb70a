use portguard_systray::Config;

fn sorted(mut list: Vec<(u128, String)>) -> Vec<(u128, String)> {
    list.sort();
    list
}

#[test]
fn empty_config() {
    let config = Config::new();
    assert!(config.list_clients().is_empty());
    assert_eq!(config.last_selected(), None);
    assert!(!config.contains(1));
    assert_eq!(config.path_of(1), None);
}

#[test]
fn add_then_look_up() {
    let mut config = Config::new();
    config.add(1, "/bin/one".to_string());
    config.add(2, "/bin/two".to_string());
    assert!(config.contains(1));
    assert!(config.contains(2));
    assert!(!config.contains(3));
    assert_eq!(config.path_of(1), Some("/bin/one".to_string()));
    assert_eq!(config.path_of(2), Some("/bin/two".to_string()));
    assert_eq!(config.path_of(3), None);
    assert_eq!(
        sorted(config.list_clients()),
        vec![(1, "/bin/one".to_string()), (2, "/bin/two".to_string())]
    );
}

#[test]
fn add_replaces() {
    let mut config = Config::new();
    config.add(1, "/bin/one".to_string());
    config.add(1, "/bin/uno".to_string());
    assert_eq!(config.list_clients(), vec![(1, "/bin/uno".to_string())]);
}

#[test]
fn forget_removes_the_client_and_its_selection() {
    let mut config = Config::new();
    config.add(1, "/bin/one".to_string());
    config.add(2, "/bin/two".to_string());
    config.select(1);
    config.forget(2);
    assert_eq!(config.last_selected(), Some(1));
    assert_eq!(config.list_clients(), vec![(1, "/bin/one".to_string())]);
    config.forget(1);
    assert_eq!(config.last_selected(), None);
    assert!(config.list_clients().is_empty());
    config.forget(1);
    assert!(config.list_clients().is_empty());
}

#[test]
fn forget_of_an_unregistered_selection_clears_it() {
    let mut config = Config::new();
    config.select(9);
    assert_eq!(config.last_selected(), Some(9));
    config.forget(9);
    assert_eq!(config.last_selected(), None);
}

#[test]
fn from_entries_registers_in_order() {
    let entries = vec![
        (1, "/bin/one".to_string()),
        (2, "/bin/two".to_string()),
        (1, "/bin/uno".to_string()),
    ];
    let config = Config::from_entries(&entries, Some(2));
    assert_eq!(config.last_selected(), Some(2));
    assert_eq!(
        sorted(config.list_clients()),
        vec![(1, "/bin/uno".to_string()), (2, "/bin/two".to_string())]
    );
}

#[test]
fn listing_round_trip_empty() {
    let config = Config::new();
    let again = Config::from_entries(&config.list_clients(), config.last_selected());
    assert!(again.list_clients().is_empty());
    assert_eq!(again.last_selected(), None);
}

#[test]
fn listing_round_trip_single_entry() {
    let mut config = Config::new();
    config.add(5, "/usr/bin/five".to_string());
    let again = Config::from_entries(&config.list_clients(), config.last_selected());
    assert_eq!(again.list_clients(), vec![(5, "/usr/bin/five".to_string())]);
    assert_eq!(again.last_selected(), None);
}

#[test]
fn listing_round_trip_with_selection() {
    let mut config = Config::new();
    config.add(5, "/usr/bin/five".to_string());
    config.add(u128::MAX, "C:\\tools\\max.exe".to_string());
    config.add(0, "".to_string());
    config.select(u128::MAX);
    let again = Config::from_entries(&config.list_clients(), config.last_selected());
    assert_eq!(sorted(again.list_clients()), sorted(config.list_clients()));
    assert_eq!(again.list_clients().len(), 3);
    assert_eq!(again.last_selected(), Some(u128::MAX));
}
