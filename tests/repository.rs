use l0::{
    assemble_order, assemble_orders, decode_item, decode_order, item_params, order_params, AddStep,
    Cell, DecodeError, Delivery, GetStep, Item, Order, OrderCache, Payment, Repository, Row,
    CACHE_CAPACITY, INSERT_ITEM_SQL, INSERT_ORDER_SQL,
};

fn item(chrt_id: i32, price: i32, nm_id: i32) -> Item {
    Item {
        chrt_id,
        track_number: "WBILMTESTTRACK".to_string(),
        price,
        rid: "ab4219087a764ae0btest".to_string(),
        name: "Mascaras".to_string(),
        sale: 30,
        size: "0".to_string(),
        total_price: 317,
        nm_id,
        brand: "Vivienne Sabo".to_string(),
        status: 202,
    }
}

fn order(uid: &str, items: Vec<Item>) -> Order {
    Order {
        order_uid: uid.to_string(),
        track_number: "WBILMTESTTRACK".to_string(),
        entry: "WBIL".to_string(),
        delivery: Delivery {
            name: "Test Testov".to_string(),
            phone: "+9720000000".to_string(),
            zip: "2639809".to_string(),
            city: "Kiryat Mozkin".to_string(),
            address: "Ploshad Mira 15".to_string(),
            region: "Kraiot".to_string(),
            email: "test@gmail.com".to_string(),
        },
        payment: Payment {
            transaction: uid.to_string(),
            request_id: "".to_string(),
            currency: "USD".to_string(),
            provider: "wbpay".to_string(),
            amount: 1817,
            payment_dt: 1637907727,
            bank: "alpha".to_string(),
            delivery_cost: 1500,
            goods_total: 317,
            custom_fee: 0,
        },
        items,
        locale: "en".to_string(),
        internal_signature: "".to_string(),
        customer_id: "test".to_string(),
        delivery_service: "meest".to_string(),
        shardkey: "9".to_string(),
        sm_id: 99,
        date_created: "2021-11-26T06:22:19Z".to_string(),
        oof_shard: "1".to_string(),
    }
}

/// The column names of an insert statement, in the order of its parameters.
fn insert_columns(sql: &str) -> Vec<String> {
    let open = sql.find('(').unwrap();
    let close = sql.find(')').unwrap();
    sql[open + 1..close].split(',').map(|c| c.trim().to_string()).collect()
}

/// The row that the store hands back for a row written with `params`.
fn stored_row(sql: &str, params: Vec<Cell>) -> Row {
    let names = insert_columns(sql);
    assert_eq!(names.len(), params.len());
    Row { columns: names.into_iter().zip(params).collect() }
}

/// An item row as `SELECT_ITEMS_SQL` hands it back: without `order_uid`.
fn selected_item_row(params: Vec<Cell>) -> Row {
    without_column(stored_row(INSERT_ITEM_SQL, params), "order_uid")
}

fn stored_rows(o: &Order) -> (Row, Vec<Row>) {
    let order_row = stored_row(INSERT_ORDER_SQL, order_params(o));
    let items = o.items.iter().map(|i| selected_item_row(item_params(&o.order_uid, i))).collect();
    (order_row, items)
}

fn without_column(row: Row, name: &str) -> Row {
    Row { columns: row.columns.into_iter().filter(|(n, _)| n != name).collect() }
}

#[test]
fn add_then_get_hits_the_cache() {
    let mut repo = Repository::new(10);
    let o = order("A-1", vec![item(1, 2, 3), item(4, 5, 6)]);
    assert!(matches!(repo.add(o.clone()), AddStep::Write { .. }));
    match repo.get("A-1") {
        GetStep::Cached(got) => assert_eq!(got, o),
        GetStep::Fetch => panic!("expected a cache hit"),
    }
}

#[test]
fn read_through_populates_the_cache() {
    let o = order("B-2", vec![item(7, 8, 9)]);
    let (order_row, item_rows) = stored_rows(&o);
    let mut repo = Repository::new(10);
    assert!(matches!(repo.get("B-2"), GetStep::Fetch));
    let got = repo.finish_get("B-2", Some(order_row), item_rows).unwrap().unwrap();
    assert_eq!(got, o);
    match repo.get("B-2") {
        GetStep::Cached(again) => assert_eq!(again, o),
        GetStep::Fetch => panic!("second get asked the store"),
    }
}

#[test]
fn duplicate_add_writes_once() {
    let mut repo = Repository::new(10);
    let o = order("C-3", vec![item(1, 1, 1)]);
    let mut writes = 0;
    for _ in 0..2 {
        if let AddStep::Write { .. } = repo.add(o.clone()) {
            writes += 1;
        }
    }
    assert_eq!(writes, 1);
}

#[test]
fn remove_of_absent_order_then_get_is_not_found() {
    let mut repo = Repository::new(10);
    repo.remove("never-there");
    assert!(matches!(repo.get("never-there"), GetStep::Fetch));
    assert_eq!(repo.finish_get("never-there", None, Vec::new()), Ok(None));
}

#[test]
fn list_does_not_read_the_cache() {
    let mut repo = Repository::new(10);
    assert!(matches!(repo.add(order("D-4", vec![])), AddStep::Write { .. }));
    let listed = assemble_orders(&Vec::new()).unwrap();
    assert!(listed.is_empty());
}

#[test]
fn round_trip_through_the_store_keeps_every_field() {
    let o = order("E-5", vec![item(10, 20, 30), item(11, 21, 31), item(12, 22, 32)]);
    let mut writer = Repository::new(10);
    let (order_row, item_rows) = match writer.add(o.clone()) {
        AddStep::Write { order_row, item_rows } => (order_row, item_rows),
        AddStep::AlreadyKnown => panic!("first add must write"),
    };
    assert_eq!(item_rows.len(), 3);
    let row = stored_row(INSERT_ORDER_SQL, order_row);
    let items: Vec<Row> = item_rows.into_iter().map(selected_item_row).collect();
    let mut reader = Repository::new(10);
    assert!(matches!(reader.get("E-5"), GetStep::Fetch));
    assert_eq!(reader.finish_get("E-5", Some(row), items).unwrap().unwrap(), o);
}

#[test]
fn reordered_item_rows_keep_every_item() {
    let o = order("E-6", vec![item(1, 2, 3), item(4, 5, 6)]);
    let (row, mut items) = stored_rows(&o);
    items.reverse();
    let got = assemble_order(&row, &items).unwrap();
    assert_eq!(got.items.len(), 2);
    assert_eq!(got.items[0], o.items[1]);
    assert_eq!(got.items[1], o.items[0]);
}

#[test]
fn missing_order_column_is_a_decode_error() {
    let o = order("F-6", vec![]);
    let (row, _) = stored_rows(&o);
    let row = without_column(row, "payment_amount");
    assert_eq!(decode_order(&row), Err(DecodeError::MissingColumn("payment_amount".to_string())));
    let mut repo = Repository::new(10);
    assert!(repo.finish_get("F-6", Some(row), Vec::new()).is_err());
    assert!(matches!(repo.get("F-6"), GetStep::Fetch));
}

#[test]
fn missing_item_column_is_a_decode_error() {
    let o = order("F-7", vec![item(1, 2, 3)]);
    let (row, items) = stored_rows(&o);
    let items: Vec<Row> = items.into_iter().map(|r| without_column(r, "nm_id")).collect();
    assert_eq!(decode_item(&items[0]), Err(DecodeError::MissingColumn("nm_id".to_string())));
    assert_eq!(assemble_order(&row, &items), Err(DecodeError::MissingColumn("nm_id".to_string())));
}

#[test]
fn wrong_column_type_is_a_decode_error() {
    let o = order("G-7", vec![]);
    let (row, _) = stored_rows(&o);
    let columns = row
        .columns
        .into_iter()
        .map(|(n, c)| if n == "sm_id" { (n, Cell::Null) } else { (n, c) })
        .collect();
    let err = decode_order(&Row { columns }).unwrap_err();
    assert_eq!(err, DecodeError::WrongType("sm_id".to_string()));
    assert_eq!(err.column(), "sm_id");
}

#[test]
fn listing_decodes_each_order_row() {
    let a = order("H-1", vec![]);
    let b = order("H-2", vec![]);
    let b = Order { items: vec![item(5, 6, 7), item(8, 9, 10)], ..b };
    let listed = vec![stored_rows(&a), stored_rows(&b)];
    assert_eq!(assemble_orders(&listed).unwrap(), vec![a, b]);
}

#[test]
fn order_params_follow_the_insert_columns() {
    let o = order("I-1", vec![]);
    let params = order_params(&o);
    assert_eq!(params.len(), 28);
    assert_eq!(params[0], Cell::Text("I-1".to_string()));
    assert_eq!(params[14], Cell::Int(1817));
    assert_eq!(params[15], Cell::BigInt(1637907727));
    assert_eq!(params[25], Cell::Int(99));
    let ip = item_params(&o.order_uid, &item(9934930, 453, 2389212));
    assert_eq!(ip[0], Cell::Text("I-1".to_string()));
    assert_eq!(ip[1], Cell::Int(9934930));
    assert_eq!(ip[3], Cell::Int(453));
    assert_eq!(ip[9], Cell::Int(2389212));
}

#[test]
fn first_of_duplicate_columns_counts() {
    let row = Row {
        columns: vec![
            ("a".to_string(), Cell::Int(1)),
            ("a".to_string(), Cell::Int(2)),
        ],
    };
    assert_eq!(row.int4("a"), Ok(1));
    assert_eq!(row.text("b"), Err(DecodeError::MissingColumn("b".to_string())));
}

#[test]
fn full_cache_evicts_the_least_recently_used() {
    let mut repo = Repository::new(2);
    assert!(matches!(repo.add(order("J-1", vec![])), AddStep::Write { .. }));
    assert!(matches!(repo.add(order("J-2", vec![])), AddStep::Write { .. }));
    assert!(matches!(repo.get("J-1"), GetStep::Cached(_)));
    assert!(matches!(repo.add(order("J-3", vec![])), AddStep::Write { .. }));
    assert!(matches!(repo.get("J-2"), GetStep::Fetch));
    assert!(matches!(repo.get("J-1"), GetStep::Cached(_)));
    assert!(matches!(repo.get("J-3"), GetStep::Cached(_)));
}

#[test]
fn add_into_a_full_cache_still_writes() {
    let mut repo = Repository::new(1);
    assert!(matches!(repo.add(order("K-1", vec![])), AddStep::Write { .. }));
    assert!(matches!(repo.add(order("K-2", vec![])), AddStep::Write { .. }));
}

#[test]
fn cache_insert_reports_an_existing_entry() {
    let mut cache = OrderCache::new(10);
    assert!(!cache.insert("L-1".to_string(), order("L-1", vec![])));
    assert!(cache.insert("L-1".to_string(), order("L-1", vec![item(1, 1, 1)])));
    assert_eq!(cache.peek_or_fetch("L-1").unwrap().items.len(), 1);
    cache.remove("L-1");
    assert!(cache.peek_or_fetch("L-1").is_none());
}

#[test]
fn test_order_scenario() {
    let mut repo = Repository::new(10);
    let o = order("TEST-001", vec![item(9934930, 453, 2389212)]);
    match repo.add(o) {
        AddStep::Write { item_rows, .. } => assert_eq!(item_rows.len(), 1),
        AddStep::AlreadyKnown => panic!("first add must write"),
    }
    match repo.get("TEST-001") {
        GetStep::Cached(got) => assert_eq!(got.items[0].chrt_id, 9934930),
        GetStep::Fetch => panic!("expected a cache hit"),
    }
    repo.remove("TEST-001");
    assert!(matches!(repo.get("TEST-001"), GetStep::Fetch));
    assert_eq!(repo.finish_get("TEST-001", None, Vec::new()), Ok(None));
}

#[test]
fn cache_never_holds_more_than_its_capacity() {
    let mut repo = Repository::new(2);
    for uid in ["M-1", "M-2", "M-3", "M-4", "M-5"] {
        assert!(matches!(repo.add(order(uid, vec![])), AddStep::Write { .. }));
    }
    assert!(matches!(repo.get("M-4"), GetStep::Cached(_)));
    assert!(matches!(repo.get("M-5"), GetStep::Cached(_)));
    for uid in ["M-1", "M-2", "M-3"] {
        assert!(matches!(repo.get(uid), GetStep::Fetch));
    }
}

#[test]
fn read_through_caches_under_the_requested_key() {
    let o = order("N-1", vec![]);
    let (row, items) = stored_rows(&o);
    let mut repo = Repository::new(10);
    assert_eq!(repo.finish_get("N-1", Some(row), items).unwrap().unwrap(), o);
    assert!(matches!(repo.get("N-1"), GetStep::Cached(_)));
}

#[test]
fn listing_fails_on_an_unreadable_item_row() {
    let a = order("O-1", vec![item(1, 2, 3)]);
    let (row, items) = stored_rows(&a);
    let items = items.into_iter().map(|r| without_column(r, "brand")).collect();
    assert_eq!(
        assemble_orders(&vec![(row, items)]),
        Err(DecodeError::MissingColumn("brand".to_string()))
    );
}

#[test]
fn init_holds_ten_orders() {
    assert_eq!(CACHE_CAPACITY, 10);
    let mut repo = Repository::init();
    for n in 0..11 {
        let uid = format!("P-{n}");
        assert!(matches!(repo.add(order(&uid, vec![])), AddStep::Write { .. }));
    }
    assert!(matches!(repo.get("P-0"), GetStep::Fetch));
    for n in 1..11 {
        assert!(matches!(repo.get(&format!("P-{n}")), GetStep::Cached(_)));
    }
}
