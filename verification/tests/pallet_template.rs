use pallet_template::codec::{decode, encode, IndexingData};
use pallet_template::key::derive_key;
use pallet_template::pallet::{Error, Event, Pallet, ReadBackOutcome};
use pallet_template::store::AuxStore;

#[test]
fn derived_key_is_deterministic() {
    assert_eq!(Pallet::derived_key(7), Pallet::derived_key(7));
    assert_ne!(Pallet::derived_key(7), Pallet::derived_key(8));
}

#[test]
fn derived_key_exact_format() {
    let mut expected = b"my_pallet::indexing1/".to_vec();
    expected.extend_from_slice(&1u64.to_le_bytes());
    assert_eq!(Pallet::derived_key(1), expected);
}

#[test]
fn derive_key_concatenates_namespace_separator_height() {
    let key = derive_key(&b"ns".to_vec(), 0x0102030405060708);
    let mut expected = b"ns/".to_vec();
    expected.extend_from_slice(&[0x08, 0x07, 0x06, 0x05, 0x04, 0x03, 0x02, 0x01]);
    assert_eq!(key, expected);
}

#[test]
fn derived_keys_differ_even_when_bytes_could_alias() {
    // A variable-width encoding could make height 1 collide with height 256;
    // the fixed-width encoding keeps every pair of heights apart.
    assert_ne!(Pallet::derived_key(1), Pallet::derived_key(256));
    assert_ne!(Pallet::derived_key(0), Pallet::derived_key(u64::MAX));
}

#[test]
fn encode_exact_bytes_with_value() {
    let data = IndexingData { tag: b"ab".to_vec(), value: Some(5) };
    let mut expected = 2u64.to_le_bytes().to_vec();
    expected.extend_from_slice(b"ab");
    expected.push(1);
    expected.extend_from_slice(&5u64.to_le_bytes());
    assert_eq!(encode(&data), expected);
}

#[test]
fn encode_exact_bytes_without_value() {
    let data = IndexingData { tag: b"abc".to_vec(), value: None };
    let mut expected = 3u64.to_le_bytes().to_vec();
    expected.extend_from_slice(b"abc");
    expected.push(0);
    assert_eq!(encode(&data), expected);
}

#[test]
fn decode_round_trip_with_value() {
    let data = IndexingData { tag: b"submit_number_unsigned".to_vec(), value: Some(42) };
    let decoded = decode(&encode(&data)).expect("canonical encoding must decode");
    assert_eq!(decoded, data);
}

#[test]
fn decode_round_trip_without_value() {
    let data = IndexingData { tag: b"write_key_to_ocs".to_vec(), value: None };
    let decoded = decode(&encode(&data)).expect("canonical encoding must decode");
    assert_eq!(decoded, data);
}

#[test]
fn decode_round_trip_empty_tag() {
    let data = IndexingData { tag: Vec::new(), value: None };
    let decoded = decode(&encode(&data)).expect("canonical encoding must decode");
    assert_eq!(decoded, data);
}

#[test]
fn decode_rejects_malformed_bytes() {
    // Too short to hold even a length prefix and a flag.
    assert_eq!(decode(&Vec::new()), None);
    assert_eq!(decode(&vec![0u8; 8]), None);
    // Length prefix promises more tag bytes than are present.
    let mut truncated = 4u64.to_le_bytes().to_vec();
    truncated.extend_from_slice(b"ab");
    assert_eq!(decode(&truncated), None);
    // An unknown flag byte.
    let mut bad_flag = 1u64.to_le_bytes().to_vec();
    bad_flag.extend_from_slice(b"a");
    bad_flag.push(2);
    assert_eq!(decode(&bad_flag), None);
    // A trailing byte after a complete no-value payload.
    let mut trailing = encode(&IndexingData { tag: b"a".to_vec(), value: None });
    trailing.push(0);
    assert_eq!(decode(&trailing), None);
    // A has-value flag with too few value bytes.
    let mut short_value = 1u64.to_le_bytes().to_vec();
    short_value.extend_from_slice(b"a");
    short_value.push(1);
    short_value.extend_from_slice(&[9, 9, 9]);
    assert_eq!(decode(&short_value), None);
}

#[test]
fn do_something_stores_and_emits() {
    let mut pallet = Pallet::new();
    assert_eq!(pallet.something, None);
    let result = pallet.do_something(1, 41);
    assert_eq!(result, Ok(()));
    assert_eq!(pallet.something, Some(41));
    assert_eq!(pallet.events, vec![Event::SomethingStored { something: 41, who: 1 }]);
}

#[test]
fn cause_error_without_prior_state_fails_and_writes_nothing() {
    let mut pallet = Pallet::new();
    let result = pallet.cause_error(1);
    assert_eq!(result, Err(Error::NoneValue));
    assert_eq!(pallet.something, None);
    assert!(pallet.events.is_empty());
}

#[test]
fn cause_error_at_maximum_fails_and_leaves_value_unchanged() {
    let mut pallet = Pallet::new();
    pallet.do_something(1, u32::MAX).unwrap();
    let events_before = pallet.events.len();
    let result = pallet.cause_error(1);
    assert_eq!(result, Err(Error::StorageOverflow));
    assert_eq!(pallet.something, Some(u32::MAX));
    assert_eq!(pallet.events.len(), events_before);
}

#[test]
fn scenario_store_increment_reset() {
    // First call stores 41: storage holds 41, event emitted with value 41.
    let mut pallet = Pallet::new();
    pallet.do_something(9, 41).unwrap();
    assert_eq!(pallet.something, Some(41));
    assert_eq!(pallet.events.last(), Some(&Event::SomethingStored { something: 41, who: 9 }));
    // Second call increments: storage holds 42, event emitted with value 42.
    pallet.cause_error(9).unwrap();
    assert_eq!(pallet.something, Some(42));
    assert_eq!(pallet.events.last(), Some(&Event::SomethingStored { something: 42, who: 9 }));
    // After a reset nothing is stored: the increment fails with the
    // missing-state error and storage stays unchanged.
    let mut fresh = Pallet::new();
    assert_eq!(fresh.cause_error(9), Err(Error::NoneValue));
    assert_eq!(fresh.something, None);
}

#[test]
fn store_set_then_get_returns_value() {
    let mut store = AuxStore::new();
    let key = b"k".to_vec();
    assert!(store.set(&key, &b"v1".to_vec()));
    assert_eq!(store.get(&key), Some(b"v1".to_vec()));
    // A later write under the same key overrides the earlier one.
    assert!(store.set(&key, &b"v2".to_vec()));
    assert_eq!(store.get(&key), Some(b"v2".to_vec()));
    assert_eq!(store.get(&b"other".to_vec()), None);
}

#[test]
fn store_unavailable_refuses_writes() {
    let mut store = AuxStore::new();
    store.set_available(false);
    assert!(!store.set(&b"k".to_vec(), &b"v".to_vec()));
    assert_eq!(store.get(&b"k".to_vec()), None);
}

#[test]
fn write_path_then_worker_finds_payload() {
    let mut pallet = Pallet::new();
    let mut store = AuxStore::new();
    let height = 5;
    pallet.extrinsic(1, 99, height, &mut store).unwrap();
    match pallet.offchain_worker(height, &store) {
        ReadBackOutcome::Found(data) => {
            assert_eq!(data.tag, b"submit_number_unsigned".to_vec());
            assert_eq!(data.value, Some(99));
        }
        other => panic!("expected the written payload back, got {:?}", other),
    }
}

#[test]
fn write_key_to_ocs_then_worker_finds_tag_only_payload() {
    let mut pallet = Pallet::new();
    let mut store = AuxStore::new();
    let height = 12;
    pallet.write_key_to_ocs(2, height, &mut store).unwrap();
    match pallet.offchain_worker(height, &store) {
        ReadBackOutcome::Found(data) => {
            assert_eq!(data.tag, b"write_key_to_ocs".to_vec());
            assert_eq!(data.value, None);
        }
        other => panic!("expected the written payload back, got {:?}", other),
    }
}

#[test]
fn worker_reports_absence_when_nothing_was_written() {
    let pallet = Pallet::new();
    let store = AuxStore::new();
    assert_eq!(pallet.offchain_worker(77, &store), ReadBackOutcome::Absent);
}

#[test]
fn worker_reports_absence_at_other_heights() {
    let mut pallet = Pallet::new();
    let mut store = AuxStore::new();
    pallet.extrinsic(1, 7, 10, &mut store).unwrap();
    assert_eq!(pallet.offchain_worker(11, &store), ReadBackOutcome::Absent);
}

#[test]
fn worker_reports_absence_after_retention_loss() {
    let mut pallet = Pallet::new();
    let mut store = AuxStore::new();
    pallet.extrinsic(1, 7, 10, &mut store).unwrap();
    store.drop_all();
    assert_eq!(pallet.offchain_worker(10, &store), ReadBackOutcome::Absent);
}

#[test]
fn worker_reports_decode_error_on_non_canonical_bytes() {
    let pallet = Pallet::new();
    let mut store = AuxStore::new();
    let key = Pallet::derived_key(3);
    assert!(store.set(&key, &b"garbage".to_vec()));
    assert_eq!(pallet.offchain_worker(3, &store), ReadBackOutcome::DecodeError);
}

#[test]
fn write_path_failure_is_contained() {
    let mut pallet = Pallet::new();
    pallet.do_something(1, 41).unwrap();
    let events_before = pallet.events.clone();
    let mut store = AuxStore::new();
    store.set_available(false);
    // The auxiliary write fails, yet the call succeeds and the primary
    // state mutation stands.
    assert_eq!(pallet.write_key_to_ocs(1, 8, &mut store), Ok(()));
    assert_eq!(pallet.extrinsic(1, 5, 8, &mut store), Ok(()));
    assert_eq!(pallet.something, Some(41));
    assert_eq!(pallet.events, events_before);
    assert_eq!(pallet.offchain_worker(8, &store), ReadBackOutcome::Absent);
}

#[test]
fn write_path_is_idempotent_under_replay() {
    let mut pallet = Pallet::new();
    let mut store = AuxStore::new();
    pallet.extrinsic(1, 99, 5, &mut store).unwrap();
    let first = pallet.offchain_worker(5, &store);
    // Deterministic replay of the same block re-derives the same key and
    // overwrites with the same payload: no observable divergence.
    pallet.extrinsic(1, 99, 5, &mut store).unwrap();
    let second = pallet.offchain_worker(5, &store);
    assert_eq!(first, second);
}
