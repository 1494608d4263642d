use usage_store::errors::Error;
use usage_store::store::{check_write_inputs, DataKey, SimpleDataStore};

#[test]
fn read_before_write_yields_not_found() {
    let s = SimpleDataStore::new();
    assert_eq!(s.get_latest(7), Err(Error::NotFound));
}

#[test]
fn write_then_read_returns_written_record() {
    let mut s = SimpleDataStore::new();
    let r = s.store_data(
        7,
        5,
        "cid".to_owned(),
        "prev".to_owned(),
        Some("meta".to_owned()),
        true,
        100,
    );
    assert_eq!(r, Ok(()));
    let got = s.get_latest(7).unwrap();
    assert_eq!(got.used_amount, 5);
    assert_eq!(got.cid.as_str(), "cid");
    assert_eq!(got.prev_txn.as_str(), "prev");
    assert_eq!(got.timestamp, 100);
    assert_eq!(got.metadata.as_deref(), Some("meta"));
}

#[test]
fn write_without_metadata_reads_back_none() {
    let mut s = SimpleDataStore::new();
    let r = s.store_data(3, 1, "c".to_owned(), "p".to_owned(), None, true, 0);
    assert_eq!(r, Ok(()));
    let got = s.get_latest(3).unwrap();
    assert_eq!(got.metadata, None);
    assert_eq!(got.timestamp, 0);
}

#[test]
fn overwrite_keeps_only_the_second_record() {
    let mut s = SimpleDataStore::new();
    assert_eq!(
        s.store_data(7, 5, "first".to_owned(), "p1".to_owned(), None, true, 100),
        Ok(())
    );
    assert_eq!(
        s.store_data(7, 9, "second".to_owned(), "p2".to_owned(), None, true, 200),
        Ok(())
    );
    let got = s.get_latest(7).unwrap();
    assert_eq!(got.used_amount, 9);
    assert_eq!(got.cid.as_str(), "second");
    assert_eq!(got.prev_txn.as_str(), "p2");
    assert_eq!(got.timestamp, 200);
}

#[test]
fn zero_amount_is_invalid_input() {
    let mut s = SimpleDataStore::new();
    let r = s.store_data(7, 0, "cid".to_owned(), "prev".to_owned(), None, true, 100);
    assert_eq!(r, Err(Error::InvalidInput));
    assert_eq!(s.get_latest(7), Err(Error::NotFound));
}

#[test]
fn negative_amount_is_invalid_input() {
    let mut s = SimpleDataStore::new();
    let r = s.store_data(7, -1, "cid".to_owned(), "prev".to_owned(), None, true, 100);
    assert_eq!(r, Err(Error::InvalidInput));
}

#[test]
fn empty_content_id_is_invalid_input() {
    let mut s = SimpleDataStore::new();
    let r = s.store_data(7, 5, "".to_owned(), "prev".to_owned(), None, true, 100);
    assert_eq!(r, Err(Error::InvalidInput));
    assert_eq!(s.get_latest(7), Err(Error::NotFound));
}

#[test]
fn empty_prev_txn_is_invalid_input() {
    let mut s = SimpleDataStore::new();
    let r = s.store_data(7, 5, "cid".to_owned(), "".to_owned(), None, true, 100);
    assert_eq!(r, Err(Error::InvalidInput));
    assert_eq!(s.get_latest(7), Err(Error::NotFound));
}

#[test]
fn unauthorized_write_stores_and_emits_nothing() {
    let mut s = SimpleDataStore::new();
    let r = s.store_data(7, 5, "cid".to_owned(), "prev".to_owned(), None, false, 100);
    assert_eq!(r, Err(Error::Unauthorized));
    assert_eq!(s.get_latest(7), Err(Error::NotFound));
    assert_eq!(s.event_count(), 0);
}

#[test]
fn unauthorized_wins_over_invalid_input() {
    let mut s = SimpleDataStore::new();
    let r = s.store_data(7, 0, "".to_owned(), "".to_owned(), None, false, 100);
    assert_eq!(r, Err(Error::Unauthorized));
}

#[test]
fn successful_write_emits_exactly_one_stored_notification() {
    let mut s = SimpleDataStore::new();
    assert_eq!(
        s.store_data(7, 5, "cid".to_owned(), "prev".to_owned(), None, true, 100),
        Ok(())
    );
    assert_eq!(s.event_count(), 1);
    let e = s.event_at(0);
    assert_eq!(e.topic(), "stored");
    assert_eq!(e.user, 7);
    assert_eq!(e.cid.as_str(), "cid");
    assert_eq!(e.used_amount, 5);
}

#[test]
fn failed_writes_emit_no_notification() {
    let mut s = SimpleDataStore::new();
    let _ = s.store_data(7, 0, "cid".to_owned(), "prev".to_owned(), None, true, 100);
    let _ = s.store_data(7, 5, "cid".to_owned(), "prev".to_owned(), None, false, 100);
    assert_eq!(s.event_count(), 0);
}

#[test]
fn two_writes_emit_two_notifications_in_order() {
    let mut s = SimpleDataStore::new();
    let _ = s.store_data(7, 5, "a".to_owned(), "p".to_owned(), None, true, 1);
    let _ = s.store_data(8, 6, "b".to_owned(), "q".to_owned(), None, true, 2);
    assert_eq!(s.event_count(), 2);
    assert_eq!(s.event_at(0).cid.as_str(), "a");
    assert_eq!(s.event_at(1).cid.as_str(), "b");
    assert_eq!(s.event_at(1).user, 8);
}

#[test]
fn writes_for_one_identity_do_not_touch_another() {
    let mut s = SimpleDataStore::new();
    assert_eq!(
        s.store_data(1, 5, "cid".to_owned(), "prev".to_owned(), None, true, 100),
        Ok(())
    );
    assert_eq!(s.get_latest(2), Err(Error::NotFound));
    let got = s.get_latest(1).unwrap();
    assert_eq!(got.used_amount, 5);
}

#[test]
fn read_needs_no_authorization() {
    let mut s = SimpleDataStore::new();
    assert_eq!(
        s.store_data(7, 5, "cid".to_owned(), "prev".to_owned(), None, true, 100),
        Ok(())
    );
    // get_latest takes no authorization verdict at all; a populated slot reads back.
    assert!(s.get_latest(7).is_ok());
}

#[test]
fn check_write_inputs_matches_the_write_path() {
    assert_eq!(check_write_inputs(5, "cid", "prev"), Ok(()));
    assert_eq!(check_write_inputs(0, "cid", "prev"), Err(Error::InvalidInput));
    assert_eq!(check_write_inputs(5, "", "prev"), Err(Error::InvalidInput));
    assert_eq!(check_write_inputs(5, "cid", ""), Err(Error::InvalidInput));
}

#[test]
fn data_key_addresses_its_identity() {
    let k = DataKey::LatestRecord(42);
    assert_eq!(k.user(), 42);
}

#[test]
fn default_error_is_the_catch_all() {
    assert_eq!(Error::default(), Error::ContractError);
}

#[test]
fn largest_amount_is_accepted() {
    let mut s = SimpleDataStore::new();
    let r = s.store_data(7, i128::MAX, "cid".to_owned(), "prev".to_owned(), None, true, u64::MAX);
    assert_eq!(r, Ok(()));
    let got = s.get_latest(7).unwrap();
    assert_eq!(got.used_amount, i128::MAX);
    assert_eq!(got.timestamp, u64::MAX);
}
