use neodymium::catalog::Catalog;

#[test]
fn the_first_name_becomes_active_and_stays() {
    let mut catalog: Catalog<u32> = Catalog::new();
    assert_eq!(catalog.active_name(), None);
    assert_eq!(catalog.active_item(), None);
    assert!(catalog.names().is_empty());
    assert_eq!(catalog.position("a"), None);

    catalog.register("a".to_string(), 1);
    assert_eq!(catalog.active_name(), Some("a"));
    assert_eq!(catalog.active_item(), Some(&1));

    catalog.register("b".to_string(), 2);
    catalog.register("c".to_string(), 3);
    assert_eq!(catalog.active_name(), Some("a"));
    assert_eq!(catalog.names(), vec!["a", "b", "c"]);
    assert_eq!(
        catalog.owned_names(),
        vec!["a".to_string(), "b".to_string(), "c".to_string()]
    );
    assert_eq!(catalog.position("a"), Some(0));
    assert_eq!(catalog.position("c"), Some(2));
    assert_eq!(catalog.position("d"), None);
}

#[test]
fn registering_again_overwrites_in_place() {
    let mut catalog: Catalog<u32> = Catalog::new();
    catalog.register("a".to_string(), 1);
    catalog.register("b".to_string(), 2);
    catalog.register("a".to_string(), 10);
    assert_eq!(catalog.names(), vec!["a", "b"]);
    assert_eq!(catalog.active_name(), Some("a"));
    assert_eq!(catalog.active_item(), Some(&10));

    assert!(catalog.select("b"));
    catalog.register("b".to_string(), 20);
    catalog.register("c".to_string(), 30);
    assert_eq!(catalog.active_name(), Some("b"));
    assert_eq!(catalog.active_item(), Some(&20));
    assert_eq!(catalog.names(), vec!["a", "b", "c"]);
}

#[test]
fn only_registered_names_can_be_selected() {
    let mut catalog: Catalog<&'static str> = Catalog::new();
    assert!(!catalog.select("a"));
    assert_eq!(catalog.active_name(), None);

    catalog.register("a".to_string(), "first");
    catalog.register("b".to_string(), "second");
    assert!(!catalog.select("c"));
    assert!(!catalog.select(""));
    assert!(!catalog.select("A"));
    assert_eq!(catalog.active_name(), Some("a"));

    assert!(catalog.select("b"));
    assert_eq!(catalog.active_name(), Some("b"));
    assert_eq!(catalog.active_item(), Some(&"second"));
    assert!(catalog.select("a"));
    assert_eq!(catalog.active_item(), Some(&"first"));
}
