//! The module itself: a scalar on-chain value with its two example calls,
//! the write path that records an auxiliary payload during call execution,
//! and the worker read-back that runs after finalization.
//!
//! The host runtime's dispatch, origin authentication and scheduling stay
//! outside: a call here takes an already-authenticated caller identity and
//! the current block height as plain values, and the worker takes the
//! finalized height the same way.

use vstd::prelude::*;
use crate::codec::{encode, decode, encode_spec, decode_spec, IndexingData, IndexingDataView};
use crate::codec::lemma_encode_decode_round_trip;
use crate::key::{derive_key, derive_key_spec};
use crate::store::AuxStore;

verus! {

/// An authenticated caller identity, supplied by the host's
/// origin-authentication mechanism.
pub type AccountId = u64;

/// The named failures a call can surface to its caller.
#[derive(Clone, Copy, PartialEq, Eq, Structural, Debug)]
pub enum Error {
    /// An operation expected prior state that is absent.
    NoneValue,
    /// A counter increment would exceed its representable range.
    StorageOverflow,
}

/// The structured notifications emitted on successful state mutation.
#[derive(Clone, Copy, PartialEq, Eq, Structural, Debug)]
pub enum Event {
    /// A value was stored. [something, who]
    SomethingStored { something: u32, who: AccountId },
}

/// What the worker read-back observed for a finalized height.  Purely a
/// local diagnostic: it never feeds back into consensus-visible state.
#[derive(Debug, PartialEq, Eq)]
pub enum ReadBackOutcome {
    /// A retained record was found and decoded.
    Found(IndexingData),
    /// No record is retained under the derived key.
    Absent,
    /// A record was found but its bytes are not a canonical encoding.
    DecodeError,
}

/// The namespace constant: the byte string "my_pallet::indexing1"
/// identifying this module's partition of the auxiliary key space.
pub open spec fn onchain_tx_key_spec() -> Seq<u8> {
    seq![
        109u8, 121, 95, 112, 97, 108, 108, 101, 116, 58, 58, 105, 110, 100, 101, 120, 105, 110,
        103, 49,
    ]
}

/// The tag recorded by `write_key_to_ocs`: the byte string
/// "write_key_to_ocs".
pub open spec fn write_key_to_ocs_tag_spec() -> Seq<u8> {
    seq![119u8, 114, 105, 116, 101, 95, 107, 101, 121, 95, 116, 111, 95, 111, 99, 115]
}

/// The tag recorded by `extrinsic`: the byte string
/// "submit_number_unsigned".
pub open spec fn extrinsic_tag_spec() -> Seq<u8> {
    seq![
        115u8, 117, 98, 109, 105, 116, 95, 110, 117, 109, 98, 101, 114, 95, 117, 110, 115, 105,
        103, 110, 101, 100,
    ]
}

fn onchain_tx_key() -> (r: Vec<u8>)
    ensures
        r@ == onchain_tx_key_spec(),
{
    let r: Vec<u8> = vec![
        109u8, 121, 95, 112, 97, 108, 108, 101, 116, 58, 58, 105, 110, 100, 101, 120, 105, 110,
        103, 49,
    ];
    proof {
        assert(r@ =~= onchain_tx_key_spec());
    }
    r
}

fn write_key_to_ocs_tag() -> (r: Vec<u8>)
    ensures
        r@ == write_key_to_ocs_tag_spec(),
{
    let r: Vec<u8> = vec![
        119u8, 114, 105, 116, 101, 95, 107, 101, 121, 95, 116, 111, 95, 111, 99, 115,
    ];
    proof {
        assert(r@ =~= write_key_to_ocs_tag_spec());
    }
    r
}

fn extrinsic_tag() -> (r: Vec<u8>)
    ensures
        r@ == extrinsic_tag_spec(),
{
    let r: Vec<u8> = vec![
        115u8, 117, 98, 109, 105, 116, 95, 110, 117, 109, 98, 101, 114, 95, 117, 110, 115, 105,
        103, 110, 101, 100,
    ];
    proof {
        assert(r@ =~= extrinsic_tag_spec());
    }
    r
}

/// The module's state: the consensus-replicated scalar value, and the
/// record of events emitted to the notification sink.
pub struct Pallet {
    /// The on-chain stored value, absent until a call first stores one.
    pub something: Option<u32>,
    /// The events deposited so far, oldest first.
    pub events: Vec<Event>,
}

impl Pallet {
    /// A fresh module: no stored value, no emitted events.
    pub fn new() -> (p: Pallet)
        ensures
            p.something is None,
            p.events@ == Seq::<Event>::empty(),
    {
        Pallet { something: Option::None, events: Vec::new() }
    }

    /// The auxiliary-storage key this module derives for a block height:
    /// the namespace constant, a separator, and the fixed-width height.
    /// The write path and the worker read-back both use exactly this.
    pub fn derived_key(height: u64) -> (key: Vec<u8>)
        ensures
            key@ == derive_key_spec(onchain_tx_key_spec(), height),
    {
        let namespace = onchain_tx_key();
        derive_key(&namespace, height)
    }

    /// Stores the given value and emits an event recording the new value
    /// and the caller.  Never fails.
    pub fn do_something(&mut self, who: AccountId, something: u32) -> (r: Result<(), Error>)
        ensures
            r is Ok,
            final(self).something == Option::Some(something),
            final(self).events@ == old(self).events@.push(
                (Event::SomethingStored { something, who }),
            ),
    {
        self.something = Option::Some(something);
        self.events.push(Event::SomethingStored { something, who });
        Result::Ok(())
    }

    /// Increments the stored value.  Fails with `NoneValue` when nothing
    /// was ever stored and with `StorageOverflow` at the top of the range;
    /// either failure leaves the prior state unchanged.  On success the
    /// new value is stored and an event records it with the caller.
    pub fn cause_error(&mut self, who: AccountId) -> (r: Result<(), Error>)
        ensures
            match old(self).something {
                Option::None => r == Result::<(), Error>::Err(Error::NoneValue) && *final(self)
                    == *old(self),
                Option::Some(old_value) => if old_value < u32::MAX {
                    &&& r is Ok
                    &&& final(self).something == Option::Some((old_value + 1) as u32)
                    &&& final(self).events@ == old(self).events@.push(
                        (Event::SomethingStored { something: (old_value + 1) as u32, who }),
                    )
                } else {
                    &&& r == Result::<(), Error>::Err(Error::StorageOverflow)
                    &&& *final(self) == *old(self)
                },
            },
    {
        match self.something {
            Option::None => Result::Err(Error::NoneValue),
            Option::Some(old_value) => {
                match old_value.checked_add(1) {
                    Option::None => Result::Err(Error::StorageOverflow),
                    Option::Some(new_value) => {
                        self.something = Option::Some(new_value);
                        self.events.push(Event::SomethingStored { something: new_value, who });
                        Result::Ok(())
                    },
                }
            },
        }
    }

    /// Write Path: derives the key for the current height and records a
    /// tagged payload (no number) in the auxiliary store.  The write is
    /// best-effort — a store failure is contained here, never surfaced to
    /// the caller, and the consensus-replicated state is untouched either
    /// way.
    pub fn write_key_to_ocs(&mut self, _who: AccountId, height: u64, store: &mut AuxStore) -> (r:
        Result<(), Error>)
        ensures
            r is Ok,
            *final(self) == *old(self),
            final(store).is_available() == old(store).is_available(),
            old(store).is_available() ==> final(store)@ == old(store)@.insert(
                derive_key_spec(onchain_tx_key_spec(), height),
                encode_spec((IndexingDataView { tag: write_key_to_ocs_tag_spec(), value: Option::None })),
            ),
            !old(store).is_available() ==> final(store)@ == old(store)@,
    {
        let key = Self::derived_key(height);
        let data = IndexingData { tag: write_key_to_ocs_tag(), value: Option::None };
        let encoded = encode(&data);
        let _written = store.set(&key, &encoded);
        Result::Ok(())
    }

    /// Write Path: like `write_key_to_ocs`, but the recorded payload also
    /// carries the caller-supplied number.
    pub fn extrinsic(&mut self, _who: AccountId, number: u64, height: u64, store: &mut AuxStore)
        -> (r: Result<(), Error>)
        ensures
            r is Ok,
            *final(self) == *old(self),
            final(store).is_available() == old(store).is_available(),
            old(store).is_available() ==> final(store)@ == old(store)@.insert(
                derive_key_spec(onchain_tx_key_spec(), height),
                encode_spec(
                    (IndexingDataView { tag: extrinsic_tag_spec(), value: Option::Some(number) }),
                ),
            ),
            !old(store).is_available() ==> final(store)@ == old(store)@,
    {
        let key = Self::derived_key(height);
        let data = IndexingData { tag: extrinsic_tag(), value: Option::Some(number) };
        let encoded = encode(&data);
        let _written = store.set(&key, &encoded);
        Result::Ok(())
    }

    /// Worker Read-Back: after a block is finalized, re-derives the key
    /// for its height and attempts to read the payload back.  Absence and
    /// decode failure are reported as diagnostics, never as errors, and
    /// nothing here touches consensus-visible state.
    pub fn offchain_worker(&self, height: u64, store: &AuxStore) -> (r: ReadBackOutcome)
        ensures
            ({
                let key = derive_key_spec(onchain_tx_key_spec(), height);
                match r {
                    ReadBackOutcome::Found(d) => store@.contains_key(key) && decode_spec(
                        store@[key],
                    ) == Option::Some(d@),
                    ReadBackOutcome::Absent => !store@.contains_key(key),
                    ReadBackOutcome::DecodeError => store@.contains_key(key) && decode_spec(
                        store@[key],
                    ) is None,
                }
            }),
    {
        let key = Self::derived_key(height);
        match store.get(&key) {
            Option::None => ReadBackOutcome::Absent,
            Option::Some(bytes) => {
                match decode(&bytes) {
                    Option::Some(data) => ReadBackOutcome::Found(data),
                    Option::None => ReadBackOutcome::DecodeError,
                }
            },
        }
    }
}

/// Round trip: when the write path has executed at a height and its record
/// is still retained, the bytes under the derived key decode to exactly
/// the payload that was written — so the worker read-back at that height
/// reports `Found` with that payload.
pub proof fn lemma_write_read_round_trip(
    contents: Map<Seq<u8>, Seq<u8>>,
    height: u64,
    payload: IndexingDataView,
)
    requires
        payload.tag.len() <= u64::MAX,
        contents.contains_key(derive_key_spec(onchain_tx_key_spec(), height)),
        contents[derive_key_spec(onchain_tx_key_spec(), height)] == encode_spec(payload),
    ensures
        decode_spec(contents[derive_key_spec(onchain_tx_key_spec(), height)]) == Option::Some(
            payload,
        ),
{
    lemma_encode_decode_round_trip(payload);
}

} // verus!
