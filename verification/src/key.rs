//! Key Deriver: maps a namespace and a block height to the byte key under
//! which the write path stores, and the worker re-reads, an auxiliary record.

use vstd::prelude::*;
use vstd::bytes::*;

verus! {

/// The byte that separates the namespace from the encoded height (ASCII '/').
pub const KEY_SEPARATOR: u8 = 47;

/// The derived key: `namespace ++ "/" ++ fixed-width little-endian height`.
///
/// The height is encoded with a fixed width of eight bytes, so that for a
/// fixed namespace the mapping from height to key is injective: no two
/// heights can alias to the same key.
pub open spec fn derive_key_spec(namespace: Seq<u8>, height: u64) -> Seq<u8> {
    namespace + seq![KEY_SEPARATOR] + spec_u64_to_le_bytes(height)
}

/// Derives the auxiliary-storage key for `height` under `namespace`.
///
/// Pure and total over valid inputs: no side effects, no failure mode.
/// Both the write path and the worker read-back obtain their key from this
/// one function, so the two stay byte-for-byte consistent.
pub fn derive_key(namespace: &Vec<u8>, height: u64) -> (key: Vec<u8>)
    requires
        namespace@.len() > 0,
    ensures
        key@ == derive_key_spec(namespace@, height),
{
    let mut key: Vec<u8> = Vec::new();
    let mut i: usize = 0;
    while i < namespace.len()
        invariant
            i <= namespace@.len(),
            key@ == namespace@.take(i as int),
        decreases namespace@.len() - i,
    {
        key.push(namespace[i]);
        i = i + 1;
    }
    key.push(KEY_SEPARATOR);
    let mut encoded_height = u64_to_le_bytes(height);
    key.append(&mut encoded_height);
    proof {
        assert(key@ =~= derive_key_spec(namespace@, height));
    }
    key
}

/// Determinism and injectivity of key derivation: under a fixed namespace,
/// two heights derive the same key exactly when they are the same height.
pub proof fn lemma_derive_key_injective(namespace: Seq<u8>, h1: u64, h2: u64)
    ensures
        (derive_key_spec(namespace, h1) == derive_key_spec(namespace, h2)) <==> h1 == h2,
{
    lemma_auto_spec_u64_to_from_le_bytes();
    if derive_key_spec(namespace, h1) == derive_key_spec(namespace, h2) {
        let n = namespace.len() as int;
        assert(spec_u64_to_le_bytes(h1) =~= spec_u64_to_le_bytes(h2)) by {
            assert forall|i: int| 0 <= i < 8 implies spec_u64_to_le_bytes(h1)[i]
                == spec_u64_to_le_bytes(h2)[i] by {
                assert(derive_key_spec(namespace, h1)[n + 1 + i] == spec_u64_to_le_bytes(h1)[i]);
                assert(derive_key_spec(namespace, h2)[n + 1 + i] == spec_u64_to_le_bytes(h2)[i]);
            }
        }
        assert(h1 == spec_u64_from_le_bytes(spec_u64_to_le_bytes(h1)));
        assert(h2 == spec_u64_from_le_bytes(spec_u64_to_le_bytes(h2)));
    }
}

} // verus!
