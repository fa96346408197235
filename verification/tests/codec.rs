use player_codec::PlayerData;
use player_codec::StorageData;
use player_codec::WordCursor;

fn encode(p: &PlayerData) -> Vec<u64> {
    let mut out: Vec<u64> = Vec::new();
    p.to_data(&mut out);
    out
}

#[test]
fn encode_concrete_payload() {
    let p = PlayerData {
        inventory: vec![7, 42],
        balance: 100,
        placed: 2,
        previous: 1,
        power: 50,
    };
    assert_eq!(encode(&p), vec![2, 7, 42, 100, 2, 1, 50]);
}

#[test]
fn decode_concrete_payload() {
    let mut cur = WordCursor::new(vec![2, 7, 42, 100, 2, 1, 50]);
    let p = PlayerData::from_data(&mut cur);
    assert_eq!(p.inventory, vec![7, 42]);
    assert_eq!(p.balance, 100);
    assert_eq!(p.placed, 2);
    assert_eq!(p.previous, 1);
    assert_eq!(p.power, 50);
    assert_eq!(cur.remaining_len(), 0);
    assert_eq!(cur.consumed(), 7);
}

#[test]
fn round_trip_empty_inventory() {
    let p = PlayerData {
        inventory: vec![],
        balance: u64::MAX,
        placed: 0,
        previous: 1,
        power: u64::MAX - 1,
    };
    let words = encode(&p);
    assert_eq!(words.len(), 5);
    let mut cur = WordCursor::new(words);
    let q = PlayerData::from_data(&mut cur);
    assert_eq!(q.inventory, p.inventory);
    assert_eq!(q.balance, p.balance);
    assert_eq!(q.placed, p.placed);
    assert_eq!(q.previous, p.previous);
    assert_eq!(q.power, p.power);
    assert_eq!(cur.remaining_len(), 0);
}

#[test]
fn round_trip_large_values() {
    let p = PlayerData {
        inventory: vec![u64::MAX, 0, 9007199254740993, u64::MAX],
        balance: u64::MAX,
        placed: u64::MAX - 1,
        previous: 3,
        power: 1 << 63,
    };
    let mut cur = WordCursor::new(encode(&p));
    let q = PlayerData::from_data(&mut cur);
    assert_eq!(q.inventory, p.inventory);
    assert_eq!(q.balance, p.balance);
    assert_eq!(q.placed, p.placed);
    assert_eq!(q.previous, p.previous);
    assert_eq!(q.power, p.power);
}

#[test]
fn decode_consumes_exactly_the_record() {
    // Three trailing words beyond the record must be left unread.
    let mut cur = WordCursor::new(vec![3, 10, 20, 30, 4, 5, 6, 7, 99, 98, 97]);
    let p = PlayerData::from_data(&mut cur);
    assert_eq!(p.inventory, vec![10, 20, 30]);
    assert_eq!(p.balance, 4);
    assert_eq!(p.power, 7);
    assert_eq!(cur.consumed(), 5 + 3);
    assert_eq!(cur.remaining_len(), 3);
    assert_eq!(cur.next(), 99);
    assert_eq!(cur.next(), 98);
    assert_eq!(cur.next(), 97);
}

#[test]
fn encode_preserves_order_and_duplicates() {
    let p = PlayerData {
        inventory: vec![3, 1, 4, 1, 5],
        balance: 0,
        placed: 0,
        previous: 0,
        power: 0,
    };
    assert_eq!(encode(&p), vec![5, 3, 1, 4, 1, 5, 0, 0, 0, 0]);
    let mut cur = WordCursor::new(vec![5, 3, 1, 4, 1, 5, 0, 0, 0, 0]);
    let q = PlayerData::from_data(&mut cur);
    assert_eq!(q.inventory, vec![3, 1, 4, 1, 5]);
}

#[test]
fn encode_appends_without_truncating() {
    let p = PlayerData {
        inventory: vec![8],
        balance: 2,
        placed: 3,
        previous: 4,
        power: 5,
    };
    let mut out = vec![111, 222];
    p.to_data(&mut out);
    assert_eq!(out, vec![111, 222, 1, 8, 2, 3, 4, 5]);
}

#[test]
fn can_decode_accepts_complete_records() {
    let cur = WordCursor::new(vec![2, 7, 42, 100, 2, 1, 50]);
    assert!(PlayerData::can_decode(&cur));
    let cur = WordCursor::new(vec![0, 0, 0, 0, 0]);
    assert!(PlayerData::can_decode(&cur));
}

#[test]
fn can_decode_rejects_truncated_streams() {
    assert!(!PlayerData::can_decode(&WordCursor::new(vec![])));
    assert!(!PlayerData::can_decode(&WordCursor::new(vec![0, 0, 0, 0])));
    // The length prefix claims two elements but only one follows.
    assert!(!PlayerData::can_decode(&WordCursor::new(vec![2, 7, 100, 2, 1, 50])));
    // A maliciously large length prefix is bounded by the words available.
    assert!(!PlayerData::can_decode(&WordCursor::new(vec![u64::MAX, 1, 2, 3, 4, 5])));
}

#[test]
fn default_record_encodes_to_five_zeros() {
    let p = PlayerData::default();
    assert!(p.inventory.is_empty());
    assert_eq!(p.balance, 0);
    assert_eq!(p.placed, 0);
    assert_eq!(p.previous, 0);
    assert_eq!(p.power, 0);
    assert_eq!(encode(&p), vec![0, 0, 0, 0, 0]);
}
