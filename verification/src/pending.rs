//! Pending swap descriptors.
//!
//! Every transition into an awaiting-swap state writes one descriptor,
//! keyed by the position identifier the swap concerns; the continuation
//! handler reads and removes it.  At most one descriptor per identifier
//! exists at a time.

use vstd::prelude::*;
use crate::error::ContractError;
use crate::types::TmpSwapInfo;

verus! {

/// Descriptor identifiers are pairwise distinct.
pub open spec fn unique_ids(s: Seq<TmpSwapInfo>) -> bool {
    forall|i: int, j: int|
        0 <= i < j < s.len() ==> s[i].position_id != s[j].position_id
}

/// Whether a descriptor with the given identifier is outstanding.
pub open spec fn spec_has_swap(s: Seq<TmpSwapInfo>, position_id: u64) -> bool {
    exists|i: int| 0 <= i < s.len() && (#[trigger] s[i]).position_id == position_id
}

/// The outstanding pending swap descriptors.
pub struct PendingSwaps {
    pub items: Vec<TmpSwapInfo>,
}

/// Two outstanding descriptors with one identifier are the same record.
pub proof fn lemma_swap_id_unique(s: Seq<TmpSwapInfo>, p: TmpSwapInfo, q: TmpSwapInfo)
    requires
        unique_ids(s),
        s.contains(p),
        s.contains(q),
        p.position_id == q.position_id,
    ensures
        p == q,
{
    let i = choose|i: int| 0 <= i < s.len() && s[i] == p;
    let j = choose|j: int| 0 <= j < s.len() && s[j] == q;
    if i < j {
        assert(s[i].position_id != s[j].position_id);
    } else if j < i {
        assert(s[j].position_id != s[i].position_id);
    }
}

impl PendingSwaps {
    pub open spec fn view(self) -> Seq<TmpSwapInfo> {
        self.items@
    }

    pub open spec fn well_formed(self) -> bool {
        unique_ids(self.view())
    }

    pub fn new() -> (r: Self)
        ensures
            r.view().len() == 0,
            r.well_formed(),
    {
        PendingSwaps { items: Vec::new() }
    }

    fn find_index(&self, position_id: u64) -> (r: Option<usize>)
        ensures
            r matches Some(i) ==> i < self.view().len() && self.view()[i as int].position_id
                == position_id,
            r is None ==> forall|i: int|
                0 <= i < self.view().len() ==> (#[trigger] self.view()[i]).position_id
                    != position_id,
    {
        let n: usize = self.items.len();
        let mut i: usize = 0;
        while i < n
            invariant
                n == self.view().len(),
                i <= n,
                forall|k: int|
                    0 <= k < i ==> (#[trigger] self.view()[k]).position_id != position_id,
            decreases n - i,
        {
            if self.items[i].position_id == position_id {
                return Some(i);
            }
            i = i + 1;
        }
        None
    }

    /// Writes a descriptor, superseding any outstanding one with the same
    /// identifier.
    pub fn store_tmp_swap(&mut self, swap: &TmpSwapInfo)
        requires
            old(self).well_formed(),
        ensures
            final(self).well_formed(),
            forall|t: TmpSwapInfo|
                final(self).view().contains(t) <==> (t == *swap || (old(self).view().contains(t)
                    && t.position_id != swap.position_id)),
    {
        let ghost s0 = self.view();
        match self.find_index(swap.position_id) {
            Some(i) => {
                proof {
                    lemma_swap_remove_contains(s0, i as int);
                    assert(s0.contains(s0[i as int]));
                    s0.remove_ensures(i as int);
                    s0.remove(i as int).insert_ensures(i as int, *swap);
                }
                let _replaced: TmpSwapInfo = self.items.remove(i);
                proof {
                    lemma_swap_insert_contains(s0.remove(i as int), i as int, *swap);
                }
                self.items.insert(i, duplicate_swap(swap));
                proof {
                    let s1 = self.view();
                    assert forall|a: int, b: int| 0 <= a < b < s1.len() implies s1[a].position_id
                        != s1[b].position_id by {
                        assert(s0[a].position_id != s0[b].position_id);
                    }
                    assert forall|t: TmpSwapInfo|
                        s1.contains(t) <==> (t == *swap || (s0.contains(t) && t.position_id
                            != swap.position_id)) by {
                        if s0.contains(t) && t != s0[i as int] && t.position_id
                            == swap.position_id {
                            lemma_swap_id_unique(s0, t, s0[i as int]);
                        }
                    }
                }
            },
            None => {
                proof {
                    lemma_swap_insert_contains(s0, s0.len() as int, *swap);
                    s0.insert_ensures(s0.len() as int, *swap);
                    assert(s0.insert(s0.len() as int, *swap) =~= s0.push(*swap));
                }
                self.items.push(duplicate_swap(swap));
                proof {
                    let s1 = self.view();
                    assert(s1 =~= s0.push(*swap));
                    assert forall|a: int, b: int| 0 <= a < b < s1.len() implies s1[a].position_id
                        != s1[b].position_id by {
                        if b < s1.len() - 1 {
                            assert(s0[a].position_id != s0[b].position_id);
                        } else {
                            assert(s0[a].position_id != swap.position_id);
                        }
                    }
                }
            },
        }
    }

    /// Reads the outstanding descriptor for an identifier.
    pub fn read_tmp_swap(&self, position_id: u64) -> (r: Result<TmpSwapInfo, ContractError>)
        requires
            self.well_formed(),
        ensures
            r is Ok <==> spec_has_swap(self.view(), position_id),
            r matches Ok(t) ==> self.view().contains(t) && t.position_id == position_id,
            r is Err ==> r == Err::<TmpSwapInfo, ContractError>(ContractError::SwapInfoNotFound),
    {
        match self.find_index(position_id) {
            Some(i) => {
                proof {
                    assert(self.view().contains(self.view()[i as int]));
                }
                Ok(duplicate_swap(&self.items[i]))
            },
            None => {
                proof {
                    if spec_has_swap(self.view(), position_id) {
                        let i = choose|i: int|
                            0 <= i < self.view().len() && (#[trigger] self.view()[i]).position_id
                                == position_id;
                    }
                }
                Err(ContractError::SwapInfoNotFound)
            },
        }
    }

    /// Removes the outstanding descriptor for an identifier, if any.
    pub fn remove_tmp_swap(&mut self, position_id: u64)
        requires
            old(self).well_formed(),
        ensures
            final(self).well_formed(),
            forall|t: TmpSwapInfo|
                final(self).view().contains(t) <==> (old(self).view().contains(t)
                    && t.position_id != position_id),
    {
        let ghost s0 = self.view();
        match self.find_index(position_id) {
            Some(i) => {
                proof {
                    lemma_swap_remove_contains(s0, i as int);
                    assert(s0.contains(s0[i as int]));
                    s0.remove_ensures(i as int);
                }
                let _removed: TmpSwapInfo = self.items.remove(i);
                proof {
                    let s1 = self.view();
                    assert forall|a: int, b: int| 0 <= a < b < s1.len() implies s1[a].position_id
                        != s1[b].position_id by {
                        assert(s0.remove(i as int) =~= s1);
                        if b < i {
                            assert(s0[a].position_id != s0[b].position_id);
                        } else if a < i {
                            assert(s0[a].position_id != s0[b + 1].position_id);
                        } else {
                            assert(s0[a + 1].position_id != s0[b + 1].position_id);
                        }
                    }
                    assert forall|t: TmpSwapInfo|
                        s1.contains(t) <==> (s0.contains(t) && t.position_id != position_id) by {
                        if s0.contains(t) && t != s0[i as int] && t.position_id == position_id {
                            lemma_swap_id_unique(s0, t, s0[i as int]);
                        }
                    }
                }
            },
            None => {
                proof {
                    assert forall|t: TmpSwapInfo| s0.contains(t) implies t.position_id
                        != position_id by {
                        let k = choose|k: int| 0 <= k < s0.len() && s0[k] == t;
                    }
                }
            },
        }
    }
}

/// An owned copy equal to a descriptor.
fn duplicate_swap(t: &TmpSwapInfo) -> (r: TmpSwapInfo)
    ensures
        r == *t,
{
    TmpSwapInfo {
        position_id: t.position_id,
        vamm: t.vamm.clone(),
        pair: t.pair.clone(),
        trader: t.trader.clone(),
        side: t.side,
        margin_amount: t.margin_amount,
        leverage: t.leverage,
        open_notional: t.open_notional,
        position_notional: t.position_notional,
        unrealized_pnl: t.unrealized_pnl,
        margin_to_vault: t.margin_to_vault,
        take_profit: t.take_profit,
        stop_loss: t.stop_loss,
        spread_fee: t.spread_fee,
        toll_fee: t.toll_fee,
    }
}

/// Inserting adds exactly one element to a sequence's membership.
proof fn lemma_swap_insert_contains(s: Seq<TmpSwapInfo>, j: int, v: TmpSwapInfo)
    requires
        0 <= j <= s.len(),
    ensures
        forall|x: TmpSwapInfo| s.insert(j, v).contains(x) <==> (x == v || s.contains(x)),
{
    let t = s.insert(j, v);
    assert forall|x: TmpSwapInfo| t.contains(x) implies (x == v || s.contains(x)) by {
        let k = choose|k: int| 0 <= k < t.len() && t[k] == x;
        if k < j {
            assert(s[k] == x);
        } else if k > j {
            assert(s[k - 1] == x);
        }
    }
    assert forall|x: TmpSwapInfo| (x == v || s.contains(x)) implies t.contains(x) by {
        if x == v {
            assert(t[j] == x);
        } else {
            let k = choose|k: int| 0 <= k < s.len() && s[k] == x;
            if k < j {
                assert(t[k] == x);
            } else {
                assert(t[k + 1] == x);
            }
        }
    }
}

/// Removing an element from a store with unique identifiers removes
/// exactly that element from its membership.
proof fn lemma_swap_remove_contains(s: Seq<TmpSwapInfo>, i: int)
    requires
        0 <= i < s.len(),
        unique_ids(s),
    ensures
        forall|x: TmpSwapInfo| s.remove(i).contains(x) <==> (s.contains(x) && x != s[i]),
{
    let t = s.remove(i);
    assert forall|x: TmpSwapInfo| t.contains(x) implies (s.contains(x) && x != s[i]) by {
        let k = choose|k: int| 0 <= k < t.len() && t[k] == x;
        if k < i {
            assert(s[k] == x);
            assert(s[k].position_id != s[i].position_id);
        } else {
            assert(s[k + 1] == x);
            assert(s[i].position_id != s[k + 1].position_id);
        }
    }
    assert forall|x: TmpSwapInfo| (s.contains(x) && x != s[i]) implies t.contains(x) by {
        let k = choose|k: int| 0 <= k < s.len() && s[k] == x;
        if k < i {
            assert(t[k] == x);
        } else {
            assert(k != i);
            assert(t[k - 1] == x);
        }
    }
}

} // verus!
