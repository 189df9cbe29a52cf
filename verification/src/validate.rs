//! Validation of a chain of swap operations.

use vstd::prelude::*;
use crate::asset::{SwapOperation, SwapOperationView, asset_key, ask_asset, chain_view, offer_asset};

verus! {

/// Why a chain is refused.
#[derive(Debug, PartialEq, Eq, Clone, Copy)]
pub enum InvalidChain {
    /// The chain has no hop.
    Empty,
    /// The chain does not end in exactly one asset.
    MultipleOutputs,
}

/// The keys of the assets that the chain has given out and not taken in
/// again: each hop first takes its offer asset's key away, then adds its ask
/// asset's key.
pub open spec fn unresolved(chain: Seq<SwapOperationView>) -> Set<Seq<char>>
    decreases chain.len(),
{
    if chain.len() == 0 {
        Set::empty()
    } else {
        unresolved(chain.drop_last()).remove(asset_key(offer_asset(chain.last()))).insert(
            asset_key(ask_asset(chain.last())),
        )
    }
}

/// A chain is valid when it has a hop and leaves exactly one asset unresolved.
pub open spec fn valid_chain(chain: Seq<SwapOperationView>) -> bool {
    chain.len() > 0 && unresolved(chain).len() == 1
}

/// What validation answers for a chain.
pub open spec fn validation_result(chain: Seq<SwapOperationView>) -> Result<(), InvalidChain> {
    if chain.len() == 0 {
        Err(InvalidChain::Empty)
    } else if valid_chain(chain) {
        Ok(())
    } else {
        Err(InvalidChain::MultipleOutputs)
    }
}

/// Each hop but the last gives out the asset that the next one takes in.
pub open spec fn chained(chain: Seq<SwapOperationView>) -> bool {
    forall|i: int|
        0 <= i < chain.len() - 1 ==> asset_key(ask_asset(#[trigger] chain[i])) == asset_key(
            offer_asset(chain[i + 1]),
        )
}

/// A non-empty chain whose hops follow one another leaves exactly the last
/// hop's ask asset unresolved.
pub proof fn lemma_chained_unresolved(chain: Seq<SwapOperationView>)
    requires
        chain.len() > 0,
        chained(chain),
    ensures
        unresolved(chain) == set![asset_key(ask_asset(chain.last()))],
    decreases chain.len(),
{
    let front = chain.drop_last();
    if front.len() == 0 {
        assert(unresolved(front) == Set::<Seq<char>>::empty());
        assert(unresolved(chain) =~= set![asset_key(ask_asset(chain.last()))]);
    } else {
        assert forall|i: int| 0 <= i < front.len() - 1 implies asset_key(ask_asset(#[trigger] front[i]))
            == asset_key(offer_asset(front[i + 1])) by {
            assert(front[i] == chain[i]);
            assert(front[i + 1] == chain[i + 1]);
        }
        lemma_chained_unresolved(front);
        assert(front.last() == chain[chain.len() - 2]);
        assert(asset_key(ask_asset(chain[chain.len() - 2])) == asset_key(offer_asset(chain[chain.len() - 2 + 1])));
        assert(unresolved(chain) =~= set![asset_key(ask_asset(chain.last()))]);
    }
}

/// Every non-empty chain whose hops follow one another is valid, and an
/// empty chain is refused as empty.
pub proof fn lemma_chained_chain_is_valid(chain: Seq<SwapOperationView>)
    requires
        chained(chain),
    ensures
        chain.len() > 0 ==> validation_result(chain) == Ok::<(), InvalidChain>(()),
        chain.len() == 0 ==> validation_result(chain) == Err::<(), InvalidChain>(InvalidChain::Empty),
{
    if chain.len() > 0 {
        lemma_chained_unresolved(chain);
    }
}

/// The unresolved keys of a chain are finitely many, and a chain with a hop
/// leaves at least its last hop's ask asset unresolved.
pub proof fn lemma_unresolved_finite(chain: Seq<SwapOperationView>)
    ensures
        unresolved(chain).finite(),
        chain.len() > 0 ==> unresolved(chain).contains(asset_key(ask_asset(chain.last()))) && unresolved(chain).len()
            >= 1,
    decreases chain.len(),
{
    if chain.len() > 0 {
        lemma_unresolved_finite(chain.drop_last());
        let key = asset_key(ask_asset(chain.last()));
        if unresolved(chain).len() == 0 {
            assert(unresolved(chain) =~= Set::<Seq<char>>::empty());
            assert(unresolved(chain).contains(key));
        }
    }
}

/// A chain is refused for its outputs exactly when it leaves two or more
/// assets unresolved.
pub proof fn lemma_multiple_outputs(chain: Seq<SwapOperationView>)
    ensures
        validation_result(chain) == Err::<(), InvalidChain>(InvalidChain::MultipleOutputs) <==> unresolved(chain).len()
            >= 2,
{
    lemma_unresolved_finite(chain);
    if chain.len() == 0 {
        assert(unresolved(chain).len() == 0);
    }
}

/// The set of the keys in a list.
spec fn key_set(keys: Seq<String>) -> Set<Seq<char>> {
    Seq::new(keys.len(), |i: int| keys[i]@).to_set()
}

/// No key occurs twice in the list.
spec fn distinct(keys: Seq<String>) -> bool {
    Seq::new(keys.len(), |i: int| keys[i]@).no_duplicates()
}

/// A list of distinct keys has as many keys as its key set.
proof fn lemma_key_set_len(keys: Seq<String>)
    requires
        distinct(keys),
    ensures
        key_set(keys).finite(),
        key_set(keys).len() == keys.len(),
{
    let views = Seq::new(keys.len(), |i: int| keys[i]@);
    views.unique_seq_to_set();
}

/// Where `key` stands in the list, if it does.
fn position_of(keys: &Vec<String>, key: &String) -> (found: Option<usize>)
    ensures
        match found {
            Some(i) => i < keys@.len() && keys@[i as int]@ == key@,
            None => forall|j: int| 0 <= j < keys@.len() ==> keys@[j]@ != key@,
        },
{
    let mut i: usize = 0;
    while i < keys.len()
        invariant
            i <= keys@.len(),
            forall|j: int| 0 <= j < i ==> keys@[j]@ != key@,
        decreases keys@.len() - i,
    {
        if keys[i] == *key {
            return Some(i);
        }
        i += 1;
    }
    None
}

/// Takes `key` out of the list, if it is there.
fn remove_key(keys: &mut Vec<String>, key: &String)
    requires
        distinct(old(keys)@),
    ensures
        distinct(final(keys)@),
        key_set(final(keys)@) == key_set(old(keys)@).remove(key@),
{
    let found = position_of(keys, key);
    let ghost before = Seq::new(keys@.len(), |i: int| keys@[i]@);
    match found {
        Some(i) => {
            let _ = keys.remove(i);
            proof {
                let after = Seq::new(keys@.len(), |j: int| keys@[j]@);
                assert(after =~= before.remove(i as int));
                assert(before[i as int] == key@);
                assert forall|a: int, b: int| 0 <= a < after.len() && 0 <= b < after.len() && a != b implies after[a]
                    != after[b] by {
                    let a0 = if a < i { a } else { a + 1 };
                    let b0 = if b < i { b } else { b + 1 };
                    assert(after[a] == before[a0] && after[b] == before[b0]);
                }
                assert forall|k: Seq<char>| after.to_set().contains(k) <==> before.to_set().remove(key@).contains(k) by {
                    if after.contains(k) {
                        let j = choose|j: int| 0 <= j < after.len() && after[j] == k;
                        if j < i {
                            assert(before[j] == k);
                        } else {
                            assert(before[j + 1] == k);
                        }
                        assert(before.contains(k));
                        assert(k != key@);
                    }
                    if before.contains(k) && k != key@ {
                        let j = choose|j: int| 0 <= j < before.len() && before[j] == k;
                        if j < i {
                            assert(after[j] == k);
                        } else {
                            assert(after[j - 1] == k);
                        }
                    }
                }
                assert(after.to_set() =~= before.to_set().remove(key@));
            }
        },
        None => {
            proof {
                assert(!before.to_set().contains(key@)) by {
                    if before.contains(key@) {
                        let j = choose|j: int| 0 <= j < before.len() && before[j] == key@;
                        assert(keys@[j]@ == key@);
                    }
                }
                assert(before.to_set() =~= before.to_set().remove(key@));
            }
        },
    }
}

/// Adds `key` to the list, unless it is there.
fn insert_key(keys: &mut Vec<String>, key: String)
    requires
        distinct(old(keys)@),
    ensures
        distinct(final(keys)@),
        key_set(final(keys)@) == key_set(old(keys)@).insert(key@),
{
    let found = position_of(keys, &key);
    let ghost before = Seq::new(keys@.len(), |i: int| keys@[i]@);
    match found {
        Some(i) => {
            proof {
                assert(before[i as int] == key@);
                assert(before.to_set().contains(key@));
                assert(before.to_set() =~= before.to_set().insert(key@));
            }
        },
        None => {
            keys.push(key);
            proof {
                let after = Seq::new(keys@.len(), |j: int| keys@[j]@);
                assert(after =~= before.push(key@));
                assert forall|k: Seq<char>| after.to_set().contains(k) <==> before.to_set().insert(key@).contains(k) by {
                    if after.contains(k) {
                        let j = choose|j: int| 0 <= j < after.len() && after[j] == k;
                        if j < before.len() {
                            assert(before[j] == k);
                        }
                    }
                    if before.contains(k) {
                        let j = choose|j: int| 0 <= j < before.len() && before[j] == k;
                        assert(after[j] == k);
                    }
                    if k == key@ {
                        assert(after[after.len() - 1] == k);
                    }
                }
                assert(after.to_set() =~= before.to_set().insert(key@));
            }
        },
    }
}

/// Validates a chain: it must have a hop, and after each hop has taken its
/// offer asset away and added its ask asset, exactly one asset must be left.
pub fn assert_operations(operations: &[SwapOperation]) -> (result: Result<(), InvalidChain>)
    ensures
        result == validation_result(chain_view(operations@)),
{
    if operations.len() == 0 {
        return Err(InvalidChain::Empty);
    }
    let ghost chain = chain_view(operations@);
    let mut keys: Vec<String> = Vec::new();
    let mut i: usize = 0;
    proof {
        assert(chain.take(0) =~= Seq::<SwapOperationView>::empty());
        assert(key_set(keys@) =~= Set::<Seq<char>>::empty());
    }
    while i < operations.len()
        invariant
            i <= operations@.len(),
            chain == chain_view(operations@),
            distinct(keys@),
            key_set(keys@) == unresolved(chain.take(i as int)),
        decreases operations@.len() - i,
    {
        let offer_key = operations[i].get_offer_asset_info().key();
        let ask_key = operations[i].get_target_asset_info().key();
        remove_key(&mut keys, &offer_key);
        insert_key(&mut keys, ask_key);
        proof {
            let next = chain.take(i + 1);
            assert(next.drop_last() =~= chain.take(i as int));
            assert(next.last() == operations@[i as int]@);
        }
        i += 1;
    }
    proof {
        assert(chain.take(i as int) =~= chain);
        lemma_key_set_len(keys@);
    }
    if keys.len() == 1 {
        Ok(())
    } else {
        Err(InvalidChain::MultipleOutputs)
    }
}

} // verus!
