use checklist::{
    decode_item_ids, default_encryption_key, marc, schema_after, schema_start, schema_statements, Checklist,
    ChecklistId, Error, Item, ItemId, Operation, RecordRef, SchemaStep, StoreFault, Table,
    DATABASE, NAMESPACE, SCHEMA_LEN,
};

fn fault(message: &str) -> StoreFault {
    StoreFault { message: message.to_owned() }
}

fn record(table: &str, key: &str) -> RecordRef {
    RecordRef { table: table.to_owned(), key: key.to_owned() }
}

fn stored_item(key: &str, checked: bool) -> Item {
    Item::stored(
        Some(ItemId::new(key.to_owned())),
        ChecklistId::new("groceries".to_owned()),
        format!("text of {key}"),
        checked,
    )
}

#[test]
fn checklist_id_text_round_trip() {
    let id = ChecklistId::new("h5k2x9q0w1".to_owned());
    let text = id.to_string();
    assert_eq!(text, "h5k2x9q0w1");
    assert_eq!(ChecklistId::from_str(&text), id);
}

#[test]
fn item_id_text_round_trip() {
    for key in ["", "a", "0n4vz", "with space", "ünïcode"] {
        let id = ItemId::new(key.to_owned());
        assert_eq!(ItemId::from_str(&id.to_string()), id);
    }
}

#[test]
fn from_str_takes_text_as_key() {
    let id = ItemId::from_str("item:abc");
    assert_eq!(id.key(), "item:abc");
}

#[test]
fn checklist_id_rejects_item_record() {
    let r = ChecklistId::try_from_record(record("item", "abc"));
    assert_eq!(
        r,
        Err(Error::WrongRecordId { expected: Table::Checklist, got: "item".to_owned() })
    );
}

#[test]
fn item_id_rejects_checklist_record() {
    let r = ItemId::try_from_record(record("checklist", "abc"));
    assert_eq!(
        r,
        Err(Error::WrongRecordId { expected: Table::Item, got: "checklist".to_owned() })
    );
}

#[test]
fn id_rejects_unknown_table() {
    let r = ItemId::try_from_record(record("items", "abc"));
    assert_eq!(r, Err(Error::WrongRecordId { expected: Table::Item, got: "items".to_owned() }));
}

#[test]
fn id_decodes_from_own_table() {
    let c = ChecklistId::try_from_record(record("checklist", "k1")).unwrap();
    assert_eq!(c.key(), "k1");
    let i = ItemId::try_from_record(record("item", "k2")).unwrap();
    assert_eq!(i.key(), "k2");
}

#[test]
fn id_to_record_and_back() {
    let id = ChecklistId::new("q7".to_owned());
    let r = id.clone().to_record();
    assert_eq!(r.table, "checklist");
    assert_eq!(r.key, "q7");
    assert_eq!(ChecklistId::try_from_record(r), Ok(id));
    let item = ItemId::new("z3".to_owned());
    let r = item.clone().to_record();
    assert_eq!(r.table, "item");
    assert_eq!(ItemId::try_from_record(r), Ok(item));
}

#[test]
fn ids_are_ordered_by_key() {
    let mut ids = vec![
        ItemId::new("c".to_owned()),
        ItemId::new("a".to_owned()),
        ItemId::new("b".to_owned()),
    ];
    ids.sort();
    let keys: Vec<&str> = ids.iter().map(|i| i.key().as_str()).collect();
    assert_eq!(keys, vec!["a", "b", "c"]);
}

#[test]
fn table_and_operation_names() {
    assert_eq!(Table::Checklist.name(), "checklist");
    assert_eq!(Table::Item.name(), "item");
    assert_eq!(Operation::CreatingChecklist.label(), "creating checklist");
    assert_eq!(Operation::UpdatingCheckedItem.label(), "updating checked item");
    assert_eq!(Operation::LoadingAllChecklists.label(), "loading all checklists");
}

#[test]
fn checklist_draft_is_named_and_empty() {
    let c = Checklist::draft("Groceries".to_owned());
    assert!(c.id.is_none());
    assert_eq!(c.name, "Groceries");
    assert!(c.items.is_empty());
}

#[test]
fn checklist_created_passes_record_through() {
    let mut c = Checklist::draft("Groceries".to_owned());
    c.id = Some(ChecklistId::new("g1".to_owned()));
    let r = Checklist::created(Ok(Some(c))).unwrap();
    assert_eq!(r.id, Some(ChecklistId::new("g1".to_owned())));
    assert_eq!(r.name, "Groceries");
    assert!(r.items.is_empty());
}

#[test]
fn checklist_created_without_record_fails() {
    let r = Checklist::created(Ok(None));
    assert_eq!(r.unwrap_err(), Error::FailedCreate { resource: Table::Checklist });
}

#[test]
fn checklist_created_store_fault() {
    let r = Checklist::created(Err(fault("disk full")));
    assert_eq!(
        r.unwrap_err(),
        Error::Surreal { context: Operation::CreatingChecklist, inner: fault("disk full") }
    );
}

#[test]
fn checklist_loaded_absent_is_none() {
    assert!(matches!(Checklist::loaded(Ok(None)), Ok(None)));
    let r = Checklist::loaded(Err(fault("x")));
    assert_eq!(
        r.unwrap_err(),
        Error::Surreal { context: Operation::LoadingChecklist, inner: fault("x") }
    );
}

#[test]
fn checklist_listed_keeps_order() {
    let all = vec![Checklist::draft("a".to_owned()), Checklist::draft("b".to_owned())];
    let r = Checklist::listed(Ok(all)).unwrap();
    assert_eq!(r.len(), 2);
    assert_eq!(r[0].name, "a");
    assert_eq!(r[1].name, "b");
    let r = Checklist::listed(Err(fault("y")));
    assert_eq!(
        r.unwrap_err(),
        Error::Surreal { context: Operation::LoadingAllChecklists, inner: fault("y") }
    );
}

#[test]
fn checklist_deleted() {
    assert_eq!(Checklist::deleted(Ok(None)), Ok(()));
    assert_eq!(
        Checklist::deleted(Err(fault("z"))),
        Err(Error::Surreal { context: Operation::DeletingChecklist, inner: fault("z") })
    );
}

#[test]
fn transient_checklist_has_no_id() {
    let c = Checklist::draft("n".to_owned());
    assert_eq!(c.persisted_id(), Err(Error::MissingId { resource: Table::Checklist }));
    let mut c = c;
    c.id = Some(ChecklistId::new("p".to_owned()));
    assert_eq!(c.persisted_id(), Ok(ChecklistId::new("p".to_owned())));
}

#[test]
fn fresh_items_of_vanished_checklist() {
    assert_eq!(Checklist::fresh_items(Ok(None)), Err(Error::MissingItem));
    assert_eq!(Checklist::fresh_items(Err(Error::MissingItem)), Err(Error::MissingItem));
    let mut c = Checklist::draft("n".to_owned());
    c.items = vec![ItemId::new("a".to_owned()), ItemId::new("b".to_owned())];
    assert_eq!(
        Checklist::fresh_items(Ok(Some(c))),
        Ok(vec![ItemId::new("a".to_owned()), ItemId::new("b".to_owned())])
    );
}

#[test]
fn gather_items_in_order() {
    let loads = vec![Ok(Some(stored_item("a", false))), Ok(Some(stored_item("b", true)))];
    let items = Checklist::gather_items(loads).unwrap();
    assert_eq!(items.len(), 2);
    assert_eq!(items[0].id, Some(ItemId::new("a".to_owned())));
    assert_eq!(items[1].id, Some(ItemId::new("b".to_owned())));
    assert!(items[1].checked());
}

#[test]
fn gather_items_empty() {
    assert!(Checklist::gather_items(Vec::new()).unwrap().is_empty());
}

#[test]
fn gather_items_missing_item_fails_whole() {
    let loads = vec![
        Ok(Some(stored_item("a", false))),
        Ok(None),
        Ok(Some(stored_item("c", false))),
    ];
    assert_eq!(Checklist::gather_items(loads).unwrap_err(), Error::MissingItem);
}

#[test]
fn gather_items_first_failure_wins() {
    let store_error = Error::Surreal { context: Operation::LoadingItem, inner: fault("io") };
    let loads = vec![Ok(Some(stored_item("a", false))), Err(store_error), Ok(None)];
    assert_eq!(
        Checklist::gather_items(loads).unwrap_err(),
        Error::Surreal { context: Operation::LoadingItem, inner: fault("io") }
    );
}

#[test]
fn item_draft_is_unchecked() {
    let item = Item::draft(ChecklistId::new("c".to_owned()), "milk".to_owned());
    assert!(item.id.is_none());
    assert_eq!(item.checklist, ChecklistId::new("c".to_owned()));
    assert_eq!(item.item, "milk");
    assert!(!item.checked());
}

#[test]
fn item_created_and_loaded() {
    assert_eq!(
        Item::created(Ok(None)).unwrap_err(),
        Error::FailedCreate { resource: Table::Item }
    );
    assert_eq!(
        Item::created(Err(fault("f"))).unwrap_err(),
        Error::Surreal { context: Operation::CreatingItem, inner: fault("f") }
    );
    let made = Item::created(Ok(Some(stored_item("a", false)))).unwrap();
    assert_eq!(made.id, Some(ItemId::new("a".to_owned())));
    assert!(matches!(Item::loaded(Ok(None)), Ok(None)));
    assert_eq!(
        Item::loaded(Err(fault("g"))).unwrap_err(),
        Error::Surreal { context: Operation::LoadingItem, inner: fault("g") }
    );
}

#[test]
fn item_deleted() {
    assert_eq!(Item::deleted(Ok(Some(stored_item("a", true)))), Ok(()));
    assert_eq!(
        Item::deleted(Err(fault("h"))),
        Err(Error::Surreal { context: Operation::DeletingItem, inner: fault("h") })
    );
}

#[test]
fn checked_state_round_trip() {
    let mut item = stored_item("a", false);
    let target = item.mark_checked(true).unwrap();
    assert_eq!(target.table, "item");
    assert_eq!(target.key, "a");
    assert!(item.checked());
    assert_eq!(item.item, "text of a");
    assert_eq!(Item::checked_in(Ok(Some(item))), Ok(true));
}

#[test]
fn deleted_item_reads_unchecked() {
    assert_eq!(Item::checked_in(Ok(None)), Ok(false));
    assert_eq!(Item::checked_in(Err(Error::MissingItem)), Err(Error::MissingItem));
}

#[test]
fn transient_item_cannot_be_checked() {
    let mut item = Item::draft(ChecklistId::new("c".to_owned()), "eggs".to_owned());
    assert_eq!(item.persisted_id(), Err(Error::MissingId { resource: Table::Item }));
    assert_eq!(item.mark_checked(true), Err(Error::MissingId { resource: Table::Item }));
    assert!(!item.checked());
}

#[test]
fn item_updated() {
    assert_eq!(Item::updated(Ok(Some(stored_item("a", true)))), Ok(()));
    assert_eq!(Item::updated(Ok(None)), Err(Error::FailedUpdate { resource: Table::Item }));
    assert_eq!(
        Item::updated(Err(fault("u"))),
        Err(Error::Surreal { context: Operation::UpdatingCheckedItem, inner: fault("u") })
    );
}

#[test]
fn schema_statements_are_guarded_definitions() {
    let statements = schema_statements();
    assert_eq!(statements.len(), SCHEMA_LEN);
    for s in &statements {
        assert!(s.starts_with("DEFINE "));
        assert!(s.contains(" IF NOT EXISTS "));
    }
    assert_eq!(statements[0], "DEFINE TABLE IF NOT EXISTS checklist SCHEMAFULL;");
    assert_eq!(NAMESPACE, "wire");
    assert_eq!(DATABASE, "checklist");
}

#[test]
fn schema_runs_every_statement_in_order() {
    let mut step = schema_start();
    let mut run = Vec::new();
    loop {
        match step {
            SchemaStep::Execute(i) => {
                run.push(i);
                step = schema_after(i, Ok(()));
            }
            SchemaStep::Ready => break,
            SchemaStep::Failed(e) => panic!("unexpected failure {e:?}"),
        }
    }
    assert_eq!(run, (0..SCHEMA_LEN).collect::<Vec<_>>());
}

#[test]
fn schema_stops_at_failed_statement() {
    match schema_after(2, Err(fault("bad"))) {
        SchemaStep::Failed(e) => assert_eq!(
            e,
            Error::Surreal { context: Operation::ExecutingSchema, inner: fault("bad") }
        ),
        other => panic!("expected failure, got {other:?}"),
    }
}

#[test]
fn default_key_joins_user_and_name() {
    assert_eq!(default_encryption_key(b"alice", b"box"), b"alice@box".to_vec());
    assert_eq!(default_encryption_key(b"", b""), b"@".to_vec());
}

#[test]
fn marc_is_identity() {
    assert_eq!(marc(5u8), 5u8);
    assert_eq!(marc("x".to_owned()), "x");
}

#[test]
fn checklist_from_record_decodes_references() {
    let c = Checklist::from_record(
        Some(record("checklist", "c1")),
        "Groceries".to_owned(),
        vec![record("item", "i1"), record("item", "i2")],
    )
    .unwrap();
    assert_eq!(c.id, Some(ChecklistId::new("c1".to_owned())));
    assert_eq!(c.name, "Groceries");
    assert_eq!(c.items, vec![ItemId::new("i1".to_owned()), ItemId::new("i2".to_owned())]);
}

#[test]
fn checklist_from_record_rejects_wrong_tables() {
    let r = Checklist::from_record(Some(record("item", "c1")), "n".to_owned(), Vec::new());
    assert_eq!(
        r.unwrap_err(),
        Error::WrongRecordId { expected: Table::Checklist, got: "item".to_owned() }
    );
    let r = Checklist::from_record(
        None,
        "n".to_owned(),
        vec![record("item", "i1"), record("checklist", "c9")],
    );
    assert_eq!(
        r.unwrap_err(),
        Error::WrongRecordId { expected: Table::Item, got: "checklist".to_owned() }
    );
}

#[test]
fn decode_item_ids_first_bad_reference() {
    let r = decode_item_ids(vec![record("item", "a"), record("list", "b"), record("x", "c")]);
    assert_eq!(r, Err(Error::WrongRecordId { expected: Table::Item, got: "list".to_owned() }));
    assert_eq!(decode_item_ids(Vec::new()), Ok(Vec::new()));
}

#[test]
fn item_from_record_decodes_references() {
    let item = Item::from_record(
        Some(record("item", "i1")),
        record("checklist", "c1"),
        "milk".to_owned(),
        true,
    )
    .unwrap();
    assert_eq!(item.id, Some(ItemId::new("i1".to_owned())));
    assert_eq!(item.checklist, ChecklistId::new("c1".to_owned()));
    assert_eq!(item.item, "milk");
    assert!(item.checked());
}

#[test]
fn item_from_record_rejects_wrong_tables() {
    let r = Item::from_record(
        Some(record("checklist", "i1")),
        record("checklist", "c1"),
        "m".to_owned(),
        false,
    );
    assert_eq!(
        r.unwrap_err(),
        Error::WrongRecordId { expected: Table::Item, got: "checklist".to_owned() }
    );
    let r = Item::from_record(None, record("item", "c1"), "m".to_owned(), false);
    assert_eq!(
        r.unwrap_err(),
        Error::WrongRecordId { expected: Table::Checklist, got: "item".to_owned() }
    );
}
