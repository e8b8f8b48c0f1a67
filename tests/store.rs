use supply_chain_backend::{decimal_string, http_request, make_id, HttpRequest, Product, Store, SupplyEvent};

fn s(x: &str) -> String {
    x.to_string()
}

#[test]
fn registered_product_reads_back_unchanged() {
    let mut store = Store::new();
    let id = store.register_product_at(1_700_000_000_000, s("Widget"), s("A small widget"), s("Acme"));
    assert_eq!(id, "prod_1700000000000");
    let expected = Product {
        id: id.clone(),
        name: s("Widget"),
        description: s("A small widget"),
        manufacturer: s("Acme"),
        created_at: 1_700_000_000_000,
        current_location: s("Manufacturing"),
        status: s("Created"),
    };
    assert_eq!(store.get_product(&id), Some(expected));
}

#[test]
fn unknown_product_is_absent() {
    let mut store = Store::new();
    store.register_product_at(5, s("a"), s("b"), s("c"));
    assert_eq!(store.get_product("prod_6"), None);
    assert_eq!(store.get_user("prod_5"), None);
}

#[test]
fn appends_are_kept_in_call_order() {
    let mut store = Store::new();
    let pid = store.register_product_at(10, s("Crate"), s("Bananas"), s("Farm"));
    let locations = ["Dock", "Ship", "Port", "Warehouse B"];
    let mut ids = Vec::new();
    for (k, loc) in locations.iter().enumerate() {
        let now = 20 + k as u64;
        ids.push(store.add_supply_event_at(now, pid.clone(), s("moved"), s(loc), s("step"), s("carrier")));
    }
    let events = store.get_product_events(&pid);
    assert_eq!(events.len(), 4);
    for (k, e) in events.iter().enumerate() {
        assert_eq!(e.id, ids[k]);
        assert_eq!(e.location, locations[k]);
        assert_eq!(e.timestamp, 20 + k as u64);
        assert_eq!(e.product_id, pid);
    }
    let p = store.get_product(&pid).unwrap();
    assert_eq!(p.current_location, "Warehouse B");
    assert_eq!(p.status, "In Transit");
    assert_eq!(p.created_at, 10);
    assert_eq!(p.name, "Crate");
}

#[test]
fn product_without_events_has_empty_history() {
    let mut store = Store::new();
    let pid = store.register_product_at(3, s("a"), s("b"), s("c"));
    assert!(store.get_product_events(&pid).is_empty());
    assert!(store.get_product_events("never_seen").is_empty());
}

#[test]
fn event_for_unregistered_product_is_recorded() {
    let mut store = Store::new();
    let eid = store.add_supply_event_at(42, s("prod_999"), s("scanned"), s("Gate 4"), s("orphan"), s("guard"));
    assert_eq!(eid, "event_42");
    let events = store.get_product_events("prod_999");
    assert_eq!(events.len(), 1);
    assert_eq!(events[0].id, eid);
    assert_eq!(events[0].location, "Gate 4");
    assert_eq!(store.get_product("prod_999"), None);
    assert!(store.get_all_products().is_empty());
}

fn sorted_ids(products: &[Product]) -> Vec<String> {
    let mut ids: Vec<String> = products.iter().map(|p| p.id.clone()).collect();
    ids.sort();
    ids
}

#[test]
fn listings_hold_every_registered_record() {
    let mut one = Store::new();
    one.register_product_at(1, s("a"), s("x"), s("m"));
    one.register_product_at(2, s("b"), s("y"), s("n"));
    one.register_product_at(3, s("c"), s("z"), s("o"));
    let mut two = Store::new();
    two.register_product_at(3, s("c"), s("z"), s("o"));
    two.register_product_at(1, s("a"), s("x"), s("m"));
    two.register_product_at(2, s("b"), s("y"), s("n"));
    let a = one.get_all_products();
    let b = two.get_all_products();
    assert_eq!(a.len(), 3);
    assert_eq!(sorted_ids(&a), vec![s("prod_1"), s("prod_2"), s("prod_3")]);
    assert_eq!(sorted_ids(&a), sorted_ids(&b));
    for p in &a {
        assert!(b.contains(p));
    }

    let mut users = Store::new();
    let u1 = users.register_user_at(7, s("Ann"), s("ann@example.com"), s("carrier"));
    let u2 = users.register_user_at(8, s("Bob"), s("bob@example.com"), s("auditor"));
    let mut ids: Vec<String> = users.get_all_users().into_iter().map(|u| u.id).collect();
    ids.sort();
    assert_eq!(ids, vec![u1, u2]);
}

#[test]
fn shipped_example() {
    let mut store = Store::new();
    let p1 = store.register_product_at(100, s("Laptop"), s("14 inch"), s("Maker"));
    let e1 = store.add_supply_event_at(200, p1.clone(), s("shipped"), s("Warehouse A"), s("left factory"), s("actor1"));
    let p = store.get_product(&p1).unwrap();
    assert_eq!(p.current_location, "Warehouse A");
    assert_eq!(p.status, "In Transit");
    let expected = SupplyEvent {
        id: e1,
        product_id: p1.clone(),
        event_type: s("shipped"),
        location: s("Warehouse A"),
        timestamp: 200,
        description: s("left factory"),
        actor: s("actor1"),
    };
    assert_eq!(store.get_product_events(&p1), vec![expected]);
}

#[test]
fn status_ignores_event_type() {
    let mut store = Store::new();
    let pid = store.register_product_at(1, s("a"), s("b"), s("c"));
    store.add_supply_event_at(2, pid.clone(), s("delivered"), s("Customer"), s("done"), s("courier"));
    let p = store.get_product(&pid).unwrap();
    assert_eq!(p.status, "In Transit");
    assert_eq!(p.current_location, "Customer");
}

#[test]
fn events_of_other_products_are_untouched() {
    let mut store = Store::new();
    let a = store.register_product_at(1, s("a"), s("b"), s("c"));
    let b = store.register_product_at(2, s("d"), s("e"), s("f"));
    store.add_supply_event_at(3, a.clone(), s("shipped"), s("Road"), s(""), s(""));
    assert!(store.get_product_events(&b).is_empty());
    assert_eq!(store.get_product(&b).unwrap().current_location, "Manufacturing");
    assert_eq!(store.get_product(&b).unwrap().status, "Created");
}

#[test]
fn same_stamp_replaces_earlier_registration() {
    let mut store = Store::new();
    store.register_product_at(9, s("first"), s(""), s(""));
    let id = store.register_product_at(9, s("second"), s(""), s(""));
    assert_eq!(store.get_all_products().len(), 1);
    assert_eq!(store.get_product(&id).unwrap().name, "second");
}

#[test]
fn duplicate_emails_are_allowed() {
    let mut store = Store::new();
    let u1 = store.register_user_at(11, s("Ann"), s("same@example.com"), s("admin"));
    let u2 = store.register_user_at(12, s("Ann"), s("same@example.com"), s("admin"));
    assert_ne!(u1, u2);
    assert_eq!(u1, "user_11");
    let user = store.get_user(&u2).unwrap();
    assert_eq!(user.email, "same@example.com");
    assert_eq!(user.created_at, 12);
    assert_eq!(user.role, "admin");
    assert_eq!(store.get_all_users().len(), 2);
}

#[test]
fn empty_strings_are_accepted() {
    let mut store = Store::new();
    let id = store.register_product_at(0, s(""), s(""), s(""));
    assert_eq!(id, "prod_0");
    assert_eq!(store.get_product(&id).unwrap().name, "");
}

#[test]
fn decimal_forms() {
    assert_eq!(decimal_string(0), "0");
    assert_eq!(decimal_string(7), "7");
    assert_eq!(decimal_string(10), "10");
    assert_eq!(decimal_string(1234567890123), "1234567890123");
    assert_eq!(decimal_string(u64::MAX), "18446744073709551615");
    assert_eq!(make_id("event_", 305), "event_305");
}

#[test]
fn health_check_answers_any_request() {
    let req = HttpRequest {
        method: s("POST"),
        url: s("/anything"),
        headers: vec![(s("X"), s("y"))],
        body: vec![1, 2, 3],
        upgrade: Some(true),
    };
    let r = http_request(&req);
    assert_eq!(r.status_code, 200);
    assert_eq!(r.headers, vec![(s("Content-Type"), s("text/plain"))]);
    assert_eq!(r.body, b"Supply Chain Backend is running.".to_vec());
}
