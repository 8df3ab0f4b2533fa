//! Access and pause checks consulted by every mutating operation.
//!
//! `PauseType::All` suspends every user action; `Open` suspends only the
//! opening of new positions; `Close` suspends closing and liquidation.  The
//! trader whitelist applies only while the trading configuration enables
//! it; relayers manage that whitelist and only the owner manages relayers.

use vstd::prelude::*;
use crate::error::ContractError;
use crate::types::{PauseType, State, TradingConfig, UserAction};

verus! {

/// Whether the pause state suspends the given action.
pub open spec fn spec_action_blocked(pause: PauseType, action: UserAction) -> bool {
    match pause {
        PauseType::All => true,
        PauseType::Open => action == UserAction::OpenPosition,
        PauseType::Close => action == UserAction::ClosePosition || action == UserAction::Liquidate,
        PauseType::Nothing => false,
    }
}

/// Rejects an action the current pause state suspends.
pub fn require_not_paused(pause: PauseType, action: UserAction) -> (r: Result<(), ContractError>)
    ensures
        r is Err <==> spec_action_blocked(pause, action),
        r is Err ==> r == Err::<(), ContractError>(ContractError::Paused),
{
    if match pause {
        PauseType::All => true,
        PauseType::Open => matches!(action, UserAction::OpenPosition),
        PauseType::Close => matches!(action, UserAction::ClosePosition)
            || matches!(action, UserAction::Liquidate),
        PauseType::Nothing => false,
    } {
        Err(ContractError::Paused)
    } else {
        Ok(())
    }
}

/// Changes the pause state.  Only the pauser may do so, and setting the
/// state it already has is rejected.
pub fn set_pause(state: &mut State, sender: &String, pauser: &String, pause: PauseType) -> (r:
    Result<(), ContractError>)
    ensures
        r is Err <==> (sender@ != pauser@ || old(state).pause == pause),
        r is Err ==> r == Err::<(), ContractError>(ContractError::Unauthorized) && *final(state)
            == *old(state),
        r is Ok ==> *final(state) == (State { pause, ..*old(state) }),
{
    if !sender.eq(pauser) || state.pause == pause {
        Err(ContractError::Unauthorized)
    } else {
        state.pause = pause;
        Ok(())
    }
}

/// A set of addresses, used for the whitelists and the relayer role.
pub struct AddressList {
    pub items: Vec<String>,
}

/// Whether an address list holds the given address.
pub open spec fn spec_list_contains(s: Seq<String>, addr: Seq<char>) -> bool {
    exists|i: int| 0 <= i < s.len() && (#[trigger] s[i])@ == addr
}

impl AddressList {
    pub open spec fn view(self) -> Seq<String> {
        self.items@
    }

    pub fn new() -> (r: Self)
        ensures
            r.view().len() == 0,
    {
        AddressList { items: Vec::new() }
    }

    pub fn contains(&self, addr: &String) -> (r: bool)
        ensures
            r == spec_list_contains(self.view(), addr@),
    {
        let n: usize = self.items.len();
        let mut i: usize = 0;
        while i < n
            invariant
                n == self.view().len(),
                i <= n,
                forall|k: int| 0 <= k < i ==> (#[trigger] self.view()[k])@ != addr@,
            decreases n - i,
        {
            if self.items[i].eq(addr) {
                proof {
                    assert(self.view()[i as int]@ == addr@);
                }
                return true;
            }
            i = i + 1;
        }
        false
    }

    /// Adds an address; membership of every other address is unchanged.
    pub fn add(&mut self, addr: &String)
        ensures
            forall|x: Seq<char>|
                spec_list_contains(final(self).view(), x) <==> (spec_list_contains(
                    old(self).view(),
                    x,
                ) || x == addr@),
    {
        if !self.contains(addr) {
            self.items.push(addr.clone());
            proof {
                assert forall|x: Seq<char>|
                    spec_list_contains(self.view(), x) <==> (spec_list_contains(
                        old(self).view(),
                        x,
                    ) || x == addr@) by {
                    let s0 = old(self).view();
                    let s1 = self.view();
                    assert(s1 =~= s0.push(*addr));
                    if spec_list_contains(s1, x) {
                        let i = choose|i: int| 0 <= i < s1.len() && (#[trigger] s1[i])@ == x;
                        if i < s0.len() {
                            assert(s0[i]@ == x);
                        }
                    }
                    if spec_list_contains(s0, x) {
                        let i = choose|i: int| 0 <= i < s0.len() && (#[trigger] s0[i])@ == x;
                        assert(s1[i]@ == x);
                    }
                    if x == addr@ {
                        assert(s1[s1.len() - 1]@ == x);
                    }
                }
            }
        }
    }

    /// Removes an address; membership of every other address is unchanged.
    pub fn remove(&mut self, addr: &String)
        ensures
            forall|x: Seq<char>|
                spec_list_contains(final(self).view(), x) <==> (spec_list_contains(
                    old(self).view(),
                    x,
                ) && x != addr@),
    {
        let ghost pred = keep_pred(addr@);
        let n: usize = self.items.len();
        let mut out: Vec<String> = Vec::new();
        let mut i: usize = 0;
        proof {
            assert(self.view().take(0).filter(pred) =~= Seq::<String>::empty());
        }
        while i < n
            invariant
                n == self.view().len(),
                i <= n,
                pred == keep_pred(addr@),
                out@ == self.view().take(i as int).filter(pred),
            decreases n - i,
        {
            proof {
                lemma_filter_take_step(self.view(), pred, i as int);
            }
            if !self.items[i].eq(addr) {
                out.push(self.items[i].clone());
            }
            i = i + 1;
        }
        proof {
            let s0 = self.view();
            assert(s0.take(n as int) =~= s0);
            let kept = s0.filter(pred);
            assert forall|x: Seq<char>|
                spec_list_contains(kept, x) <==> (spec_list_contains(s0, x) && x != addr@) by {
                if spec_list_contains(kept, x) {
                    let k = choose|k: int| 0 <= k < kept.len() && (#[trigger] kept[k])@ == x;
                    s0.lemma_filter_pred(pred, k);
                    assert(kept.contains(kept[k]));
                    s0.lemma_filter_contains_rev(pred, kept[k]);
                    assert(s0.contains(kept[k]));
                    let j = choose|j: int| 0 <= j < s0.len() && s0[j] == kept[k];
                    assert(s0[j]@ == x);
                }
                if spec_list_contains(s0, x) && x != addr@ {
                    let k = choose|k: int| 0 <= k < s0.len() && (#[trigger] s0[k])@ == x;
                    s0.lemma_filter_contains(pred, k);
                    assert(kept.contains(s0[k]));
                    let j = choose|j: int| 0 <= j < kept.len() && kept[j] == s0[k];
                    assert(kept[j]@ == x);
                }
            }
        }
        self.items = out;
    }
}

/// Keeping an address means its text differs from the one being removed.
spec fn keep_pred(addr: Seq<char>) -> spec_fn(String) -> bool {
    |t: String| t@ != addr
}

/// Filtering one more element extends the filtered prefix exactly when the
/// element matches.
proof fn lemma_filter_take_step<A>(s: Seq<A>, pred: spec_fn(A) -> bool, i: int)
    requires
        0 <= i < s.len(),
    ensures
        s.take(i + 1).filter(pred) == if pred(s[i]) {
            s.take(i).filter(pred).push(s[i])
        } else {
            s.take(i).filter(pred)
        },
{
    reveal_with_fuel(Seq::filter, 2);
    assert(s.take(i + 1).drop_last() =~= s.take(i));
    assert(s.take(i + 1).last() == s[i]);
}

/// Rejects a trader the whitelist does not hold, while the whitelist is
/// enabled.  With the whitelist disabled every trader passes.
pub fn is_whitelisted(
    trading_config: &TradingConfig,
    whitelist_traders: &AddressList,
    trader: &String,
) -> (r: Result<(), ContractError>)
    ensures
        r is Ok <==> (!trading_config.enable_whitelist || spec_list_contains(
            whitelist_traders.view(),
            trader@,
        )),
        r is Err ==> r == Err::<(), ContractError>(ContractError::Unauthorized),
{
    if !trading_config.enable_whitelist {
        return Ok(());
    }
    if whitelist_traders.contains(trader) {
        Ok(())
    } else {
        Err(ContractError::Unauthorized)
    }
}


/// Whether an address occurs in a list of addresses.
pub open spec fn spec_vec_contains(s: Seq<String>, addr: Seq<char>) -> bool {
    spec_list_contains(s, addr)
}

/// Grants the relayer role to each given address.  Only the owner may do
/// so.
pub fn set_relayer(
    config: &crate::types::Config,
    relayers: &mut AddressList,
    sender: &String,
    given: &Vec<String>,
) -> (r: Result<(), ContractError>)
    ensures
        sender@ != config.owner@ ==> r == Err::<(), ContractError>(ContractError::Unauthorized)
            && *final(relayers) == *old(relayers),
        sender@ == config.owner@ ==> r is Ok && (forall|x: Seq<char>|
            spec_list_contains(final(relayers).view(), x) <==> (spec_list_contains(
                old(relayers).view(),
                x,
            ) || spec_vec_contains(given@, x))),
{
    if !sender.eq(&config.owner) {
        return Err(ContractError::Unauthorized);
    }
    add_all(relayers, given);
    Ok(())
}

/// Revokes the relayer role from each given address.  Only the owner may
/// do so.
pub fn remove_relayer(
    config: &crate::types::Config,
    relayers: &mut AddressList,
    sender: &String,
    given: &Vec<String>,
) -> (r: Result<(), ContractError>)
    ensures
        sender@ != config.owner@ ==> r == Err::<(), ContractError>(ContractError::Unauthorized)
            && *final(relayers) == *old(relayers),
        sender@ == config.owner@ ==> r is Ok && (forall|x: Seq<char>|
            spec_list_contains(final(relayers).view(), x) <==> (spec_list_contains(
                old(relayers).view(),
                x,
            ) && !spec_vec_contains(given@, x))),
{
    if !sender.eq(&config.owner) {
        return Err(ContractError::Unauthorized);
    }
    remove_all(relayers, given);
    Ok(())
}

/// Whitelists each given trader.  Only a relayer may do so.
pub fn whitelist_trader(
    relayers: &AddressList,
    whitelist_traders: &mut AddressList,
    sender: &String,
    given: &Vec<String>,
) -> (r: Result<(), ContractError>)
    ensures
        !spec_list_contains(relayers.view(), sender@) ==> r == Err::<(), ContractError>(
            ContractError::Unauthorized,
        ) && *final(whitelist_traders) == *old(whitelist_traders),
        spec_list_contains(relayers.view(), sender@) ==> r is Ok && (forall|x: Seq<char>|
            spec_list_contains(final(whitelist_traders).view(), x) <==> (spec_list_contains(
                old(whitelist_traders).view(),
                x,
            ) || spec_vec_contains(given@, x))),
{
    if !relayers.contains(sender) {
        return Err(ContractError::Unauthorized);
    }
    add_all(whitelist_traders, given);
    Ok(())
}

/// Removes each given trader from the whitelist.  Only a relayer may do
/// so.
pub fn remove_whitelist_trader(
    relayers: &AddressList,
    whitelist_traders: &mut AddressList,
    sender: &String,
    given: &Vec<String>,
) -> (r: Result<(), ContractError>)
    ensures
        !spec_list_contains(relayers.view(), sender@) ==> r == Err::<(), ContractError>(
            ContractError::Unauthorized,
        ) && *final(whitelist_traders) == *old(whitelist_traders),
        spec_list_contains(relayers.view(), sender@) ==> r is Ok && (forall|x: Seq<char>|
            spec_list_contains(final(whitelist_traders).view(), x) <==> (spec_list_contains(
                old(whitelist_traders).view(),
                x,
            ) && !spec_vec_contains(given@, x))),
{
    if !relayers.contains(sender) {
        return Err(ContractError::Unauthorized);
    }
    remove_all(whitelist_traders, given);
    Ok(())
}

/// Adds every address of a batch to a list.
fn add_all(list: &mut AddressList, given: &Vec<String>)
    ensures
        forall|x: Seq<char>|
            #![trigger spec_list_contains(final(list).view(), x)]
            spec_list_contains(final(list).view(), x) <==> (spec_list_contains(
                old(list).view(),
                x,
            ) || spec_vec_contains(given@, x)),
{
    let n: usize = given.len();
    let mut i: usize = 0;
    while i < n
        invariant
            n == given@.len(),
            i <= n,
            forall|x: Seq<char>|
                spec_list_contains(list.view(), x) <==> (spec_list_contains(old(list).view(), x)
                    || spec_vec_contains(given@.take(i as int), x)),
        decreases n - i,
    {
        proof {
            lemma_vec_take_membership(given@, i as int);
        }
        list.add(&given[i]);
        i = i + 1;
    }
    proof {
        assert(given@.take(n as int) =~= given@);
    }
}

/// Removes every address of a batch from a list.
fn remove_all(list: &mut AddressList, given: &Vec<String>)
    ensures
        forall|x: Seq<char>|
            #![trigger spec_list_contains(final(list).view(), x)]
            spec_list_contains(final(list).view(), x) <==> (spec_list_contains(
                old(list).view(),
                x,
            ) && !spec_vec_contains(given@, x)),
{
    let n: usize = given.len();
    let mut i: usize = 0;
    while i < n
        invariant
            n == given@.len(),
            i <= n,
            forall|x: Seq<char>|
                spec_list_contains(list.view(), x) <==> (spec_list_contains(old(list).view(), x)
                    && !spec_vec_contains(given@.take(i as int), x)),
        decreases n - i,
    {
        proof {
            lemma_vec_take_membership(given@, i as int);
        }
        list.remove(&given[i]);
        i = i + 1;
    }
    proof {
        assert(given@.take(n as int) =~= given@);
    }
}

/// Membership in a one-longer prefix is membership in the prefix or being
/// the new element.
proof fn lemma_vec_take_membership(s: Seq<String>, i: int)
    requires
        0 <= i < s.len(),
    ensures
        forall|x: Seq<char>|
            spec_list_contains(s.take(i + 1), x) <==> (spec_list_contains(s.take(i), x) || x
                == s[i]@),
{
    let prefix = s.take(i);
    let next = s.take(i + 1);
    assert forall|x: Seq<char>|
        spec_list_contains(next, x) <==> (spec_list_contains(prefix, x) || x == s[i]@) by {
        if spec_list_contains(next, x) {
            let k = choose|k: int| 0 <= k < next.len() && (#[trigger] next[k])@ == x;
            if k < i {
                assert(prefix[k]@ == x);
            }
        }
        if spec_list_contains(prefix, x) {
            let k = choose|k: int| 0 <= k < prefix.len() && (#[trigger] prefix[k])@ == x;
            assert(next[k]@ == x);
        }
        if x == s[i]@ {
            assert(next[i]@ == x);
        }
    }
}


/// Adds an address to the base-asset-holding whitelist.  Only the pauser
/// may do so.
pub fn add_whitelist(
    whitelist: &mut AddressList,
    sender: &String,
    pauser: &String,
    address: &String,
) -> (r: Result<(), ContractError>)
    ensures
        sender@ != pauser@ ==> r == Err::<(), ContractError>(ContractError::Unauthorized)
            && *final(whitelist) == *old(whitelist),
        sender@ == pauser@ ==> r is Ok && (forall|x: Seq<char>|
            spec_list_contains(final(whitelist).view(), x) <==> (spec_list_contains(
                old(whitelist).view(),
                x,
            ) || x == address@)),
{
    if !sender.eq(pauser) {
        return Err(ContractError::Unauthorized);
    }
    whitelist.add(address);
    Ok(())
}

/// Removes an address from the base-asset-holding whitelist.  Only the
/// pauser may do so.
pub fn remove_whitelist(
    whitelist: &mut AddressList,
    sender: &String,
    pauser: &String,
    address: &String,
) -> (r: Result<(), ContractError>)
    ensures
        sender@ != pauser@ ==> r == Err::<(), ContractError>(ContractError::Unauthorized)
            && *final(whitelist) == *old(whitelist),
        sender@ == pauser@ ==> r is Ok && (forall|x: Seq<char>|
            spec_list_contains(final(whitelist).view(), x) <==> (spec_list_contains(
                old(whitelist).view(),
                x,
            ) && x != address@)),
{
    if !sender.eq(pauser) {
        return Err(ContractError::Unauthorized);
    }
    whitelist.remove(address);
    Ok(())
}

} // verus!
