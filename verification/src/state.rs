//! The contract's persisted state: the host library's in-memory key/value
//! store, seen through a mathematical map from key bytes to value bytes.

use vstd::prelude::*;

verus! {

#[verifier::external_type_specification]
#[verifier::external_body]
pub struct ExMockStorage(cosmwasm_std::testing::MockStorage);

/// The entries that the store holds, as a map from key bytes to value
/// bytes.
pub uninterp spec fn store_map(s: cosmwasm_std::testing::MockStorage) -> Map<Seq<u8>, Seq<u8>>;

/// Relies on `Storage::range` for `MockStorage`, over the whole key space
/// in ascending order: the backing ordered map yields each stored key
/// exactly once.
#[verifier::external_body]
fn store_all_keys(s: &cosmwasm_std::testing::MockStorage) -> (keys: Vec<Vec<u8>>)
    ensures
        forall|i: int|
            0 <= i < keys@.len() ==> #[trigger] store_map(*s).dom().contains(keys@[i]@),
        forall|k: Seq<u8>|
            #[trigger] store_map(*s).dom().contains(k) ==> exists|i: int|
                0 <= i < keys@.len() && keys@[i]@ == k,
        forall|i: int, j: int| 0 <= i < j < keys@.len() ==> keys@[i]@ != keys@[j]@,
        keys@.len() == store_map(*s).dom().len(),
{
    cosmwasm_std::Storage::range(s, None, None, cosmwasm_std::Order::Ascending)
        .map(|pair| pair.0)
        .collect()
}

/// Relies on `Storage::remove` for `MockStorage`: it deletes the entry at
/// `key`; removing an absent key changes nothing and never fails.
#[verifier::external_body]
fn store_remove(s: &mut cosmwasm_std::testing::MockStorage, key: &Vec<u8>)
    ensures
        store_map(*final(s)) == store_map(*old(s)).remove(key@),
{
    cosmwasm_std::Storage::remove(s, key.as_slice())
}

/// How many keys the store currently holds.
pub fn store_len(s: &cosmwasm_std::testing::MockStorage) -> (n: usize)
    ensures
        n == store_map(*s).dom().len(),
{
    let keys = store_all_keys(s);
    keys.len()
}

/// Delete every key the store holds. The full key list is materialized
/// before the first removal, so the store is never mutated while it is
/// being enumerated.
pub fn purge(s: &mut cosmwasm_std::testing::MockStorage)
    ensures
        store_map(*final(s)) == Map::<Seq<u8>, Seq<u8>>::empty(),
{
    let keys = store_all_keys(s);
    let ghost m0 = store_map(*s);
    let mut i: usize = 0;
    while i < keys.len()
        invariant
            i <= keys@.len(),
            forall|k: Seq<u8>|
                #[trigger] store_map(*s).dom().contains(k) ==> m0.dom().contains(k),
            forall|k: Seq<u8>|
                #[trigger] m0.dom().contains(k) ==> exists|j: int|
                    0 <= j < keys@.len() && keys@[j]@ == k,
            forall|j: int| 0 <= j < i ==> !store_map(*s).dom().contains(#[trigger] keys@[j]@),
        decreases keys@.len() - i,
    {
        store_remove(s, &keys[i]);
        i = i + 1;
    }
    proof {
        assert forall|k: Seq<u8>| !(#[trigger] store_map(*s).dom().contains(k)) by {
            if store_map(*s).dom().contains(k) {
                let j = choose|j: int| 0 <= j < keys@.len() && keys@[j]@ == k;
                assert(!store_map(*s).dom().contains(keys@[j]@));
            }
        }
        assert(store_map(*s).dom() =~= Set::<Seq<u8>>::empty());
        assert(store_map(*s) =~= Map::<Seq<u8>, Seq<u8>>::empty());
    }
}

} // verus!
