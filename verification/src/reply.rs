//! The swap continuation dispatcher and the finalize steps.
//!
//! A successful swap outcome arrives as an event: a list of string
//! attributes.  The parser extracts the two amounts and the position
//! identifier; the dispatcher routes them, by the reply kind the request
//! carried, to the finalize step that consumes the pending descriptor and
//! settles the position store.  A failed outcome aborts the whole
//! transaction with a kind-tagged error — nothing is retried.

use vstd::prelude::*;
use vstd::string::{StrSliceExecFns, StringExecFns};
use crate::error::{ContractError, ReplyKind};
use crate::funding::{premiums, spec_append, spec_latest};
use crate::integer::Integer;
use crate::margin::checked_mul_div;
use crate::pending::PendingSwaps;
use crate::store::PositionStore;
use crate::types::{Direction, Position, Side, TmpSwapInfo, VammMap, side_to_direction};

verus! {

/// The decimal number a digit string denotes, or nothing when the string
/// is empty or holds a non-digit.
pub open spec fn spec_parse_dec(s: Seq<char>) -> Option<int>
    decreases s.len(),
{
    if s.len() == 0 {
        Option::None
    } else if !('0' <= s.last() <= '9') {
        Option::None
    } else if s.len() == 1 {
        Option::Some(s.last() as int - '0' as int)
    } else {
        match spec_parse_dec(s.drop_last()) {
            Option::Some(high) => Option::Some(high * 10 + (s.last() as int - '0' as int)),
            Option::None => Option::None,
        }
    }
}

/// The signed number a string denotes: an optional leading minus sign,
/// then decimal digits.
pub open spec fn spec_parse_signed(s: Seq<char>) -> Option<int> {
    if s.len() > 0 && s[0] == '-' {
        match spec_parse_dec(s.drop_first()) {
            Option::Some(v) => Option::Some(-v),
            Option::None => Option::None,
        }
    } else {
        spec_parse_dec(s)
    }
}

/// Parses an unsigned decimal string.  Fails on an empty string, a
/// non-digit, or a value beyond the 128-bit range.
pub fn parse_u128(s: &String) -> (r: Result<u128, ContractError>)
    ensures
        (match spec_parse_dec(s@) {
            Option::Some(v) => if v <= u128::MAX as int {
                r == Ok::<u128, ContractError>(v as u128)
            } else {
                r == Err::<u128, ContractError>(ContractError::CannotParseSwap)
            },
            Option::None => r == Err::<u128, ContractError>(ContractError::CannotParseSwap),
        }),
{
    let n: usize = s.as_str().unicode_len();
    if n == 0 {
        return Err(ContractError::CannotParseSwap);
    }
    let mut acc: u128 = 0;
    let mut i: usize = 0;
    while i < n
        invariant
            n == s@.len(),
            0 < n,
            i <= n,
            spec_parse_dec(s@.take(i as int)) == (if i == 0 {
                Option::<int>::None
            } else {
                Option::<int>::Some(acc as int)
            }),
            i == 0 ==> acc == 0,
        decreases n - i,
    {
        let c: char = s.as_str().get_char(i);
        proof {
            assert(s@.take(i as int + 1).drop_last() =~= s@.take(i as int));
            assert(s@.take(i as int + 1).last() == s@[i as int]);
        }
        if c < '0' || c > '9' {
            proof {
                lemma_parse_prefix_none(s@, i as int + 1);
            }
            return Err(ContractError::CannotParseSwap);
        }
        let d: u32 = c as u32 - '0' as u32;
        proof {
            if i > 0 {
                assert(spec_parse_dec(s@.take(i as int + 1)) == Option::<int>::Some(
                    acc as int * 10 + (s@[i as int] as int - '0' as int),
                ));
            }
        }
        let shifted: u128 = match acc.checked_mul(10) {
            Some(v) => v,
            None => {
                proof {
                    assert(i > 0);
                    lemma_parse_prefix_large(s@, i as int + 1, u128::MAX as int);
                }
                return Err(ContractError::CannotParseSwap);
            },
        };
        let next: u128 = match shifted.checked_add(d as u128) {
            Some(v) => v,
            None => {
                proof {
                    assert(i > 0);
                    lemma_parse_prefix_large(s@, i as int + 1, u128::MAX as int);
                }
                return Err(ContractError::CannotParseSwap);
            },
        };
        acc = next;
        i = i + 1;
    }
    proof {
        assert(s@.take(n as int) =~= s@);
    }
    Ok(acc)
}

/// A prefix that fails to parse dooms every longer prefix.
proof fn lemma_parse_prefix_none(s: Seq<char>, i: int)
    requires
        0 < i <= s.len(),
        spec_parse_dec(s.take(i)) is None,
    ensures
        spec_parse_dec(s) is None,
    decreases s.len() - i,
{
    if i < s.len() {
        assert(s.take(i + 1).drop_last() =~= s.take(i));
        lemma_parse_prefix_none(s, i + 1);
    } else {
        assert(s.take(i) =~= s);
    }
}

/// Digits only grow a parsed value: a prefix beyond a bound dooms every
/// longer prefix to exceed it too.
proof fn lemma_parse_prefix_large(s: Seq<char>, i: int, bound: int)
    requires
        0 < i <= s.len(),
        (match spec_parse_dec(s.take(i)) {
            Option::Some(v) => v > bound,
            Option::None => true,
        }),
        bound >= 0,
    ensures
        (match spec_parse_dec(s) {
            Option::Some(v) => v > bound,
            Option::None => true,
        }),
    decreases s.len() - i,
{
    if i < s.len() {
        assert(s.take(i + 1).drop_last() =~= s.take(i));
        lemma_parse_prefix_large(s, i + 1, bound);
    } else {
        assert(s.take(i) =~= s);
    }
}

/// A parsed decimal value is never negative.
proof fn lemma_parse_nonneg(s: Seq<char>)
    ensures
        (match spec_parse_dec(s) {
            Option::Some(v) => v >= 0,
            Option::None => true,
        }),
    decreases s.len(),
{
    if s.len() > 1 {
        lemma_parse_nonneg(s.drop_last());
    }
}

/// Parses an unsigned decimal into a 64-bit identifier.
pub fn parse_u64(s: &String) -> (r: Result<u64, ContractError>)
    ensures
        (match spec_parse_dec(s@) {
            Option::Some(v) => if v <= u64::MAX as int {
                r == Ok::<u64, ContractError>(v as u64)
            } else {
                r == Err::<u64, ContractError>(ContractError::CannotParseSwap)
            },
            Option::None => r == Err::<u64, ContractError>(ContractError::CannotParseSwap),
        }),
{
    proof {
        lemma_parse_nonneg(s@);
    }
    let v: u128 = match parse_u128(s) {
        Ok(v) => v,
        Err(e) => {
            return Err(e);
        },
    };
    if v > u64::MAX as u128 {
        return Err(ContractError::CannotParseSwap);
    }
    Ok(v as u64)
}

/// Parses a signed decimal string into an `Integer`.
pub fn parse_integer(s: &String) -> (r: Result<Integer, ContractError>)
    ensures
        (match spec_parse_signed(s@) {
            Option::Some(v) => if crate::integer::abs_int(v) <= u128::MAX as int {
                r matches Ok(x) && x.as_int() == v && x.well_formed()
            } else {
                r == Err::<Integer, ContractError>(ContractError::CannotParseSwap)
            },
            Option::None => r == Err::<Integer, ContractError>(ContractError::CannotParseSwap),
        }),
{
    proof {
        lemma_parse_nonneg(s@);
        lemma_parse_nonneg(s@.drop_first());
    }
    let n: usize = s.as_str().unicode_len();
    if n > 0 && s.as_str().get_char(0) == '-' {
        let rest: String = s.as_str().substring_char(1, n).to_owned();
        proof {
            assert(rest@ =~= s@.drop_first());
        }
        let v: u128 = match parse_u128(&rest) {
            Ok(v) => v,
            Err(e) => {
                return Err(e);
            },
        };
        Ok(Integer::new_negative(v))
    } else {
        let v: u128 = match parse_u128(s) {
            Ok(v) => v,
            Err(e) => {
                return Err(e);
            },
        };
        Ok(Integer::new_positive(v))
    }
}

/// The value of the first attribute carrying a key.
pub open spec fn spec_attr(attrs: Seq<(String, String)>, key: Seq<char>) -> Option<Seq<char>>
    decreases attrs.len(),
{
    if attrs.len() == 0 {
        Option::None
    } else if attrs[0].0@ == key {
        Option::Some(attrs[0].1@)
    } else {
        spec_attr(attrs.drop_first(), key)
    }
}

/// Reads the first event attribute carrying a key.
pub fn read_event<'a>(attrs: &'a Vec<(String, String)>, key: &String) -> (r: Result<
    &'a String,
    ContractError,
>)
    ensures
        (match spec_attr(attrs@, key@) {
            Option::Some(v) => r matches Ok(x) && x@ == v,
            Option::None => r == Err::<&'a String, ContractError>(ContractError::CannotParseSwap),
        }),
{
    let n: usize = attrs.len();
    let mut i: usize = 0;
    proof {
        assert(attrs@.skip(0) =~= attrs@);
    }
    while i < n
        invariant
            n == attrs@.len(),
            i <= n,
            spec_attr(attrs@, key@) == spec_attr(attrs@.skip(i as int), key@),
        decreases n - i,
    {
        proof {
            assert(attrs@.skip(i as int)[0] == attrs@[i as int]);
            assert(attrs@.skip(i as int).drop_first() =~= attrs@.skip(i as int + 1));
        }
        if attrs[i].0.eq(key) {
            return Ok(&attrs[i].1);
        }
        i = i + 1;
    }
    proof {
        assert(attrs@.skip(n as int) =~= Seq::<(String, String)>::empty());
    }
    Err(ContractError::CannotParseSwap)
}

/// The parsed decimal of an attribute, when the attribute is present and
/// its text is all digits.
pub open spec fn spec_parsed_amount(attrs: Seq<(String, String)>, key: Seq<char>) -> Option<int> {
    match spec_attr(attrs, key) {
        Option::Some(text) => spec_parse_dec(text),
        Option::None => Option::None,
    }
}

/// The triple a swap event denotes: for an `input` event the quote amount,
/// the base amount and the position identifier; for an `output` event the
/// base and quote amounts come swapped.  An event of any other type, a
/// missing attribute, a non-numeric text or an out-of-range number denotes
/// nothing.
pub open spec fn spec_swap_event(attrs: Seq<(String, String)>) -> Option<(u128, u128, u64)> {
    match spec_attr(attrs, "type"@) {
        Option::Some(t) => {
            if t == "input"@ || t == "output"@ {
                let first = spec_parsed_amount(
                    attrs,
                    if t == "input"@ {
                        "quote_asset_amount"@
                    } else {
                        "base_asset_amount"@
                    },
                );
                let second = spec_parsed_amount(
                    attrs,
                    if t == "input"@ {
                        "base_asset_amount"@
                    } else {
                        "quote_asset_amount"@
                    },
                );
                let id = spec_parsed_amount(attrs, "position_id"@);
                if first is Some && first->0 <= u128::MAX as int && second is Some && second->0
                    <= u128::MAX as int && id is Some && id->0 <= u64::MAX as int {
                    Option::Some((first->0 as u128, second->0 as u128, id->0 as u64))
                } else {
                    Option::None
                }
            } else {
                Option::None
            }
        },
        Option::None => Option::None,
    }
}

/// Extracts the quote amount, base amount and position identifier from a
/// swap's event attributes.  The event's `type` decides which amount is
/// which: `input` lists the quote amount first, `output` the base amount.
pub fn parse_swap(attrs: &Vec<(String, String)>) -> (r: Result<(u128, u128, u64), ContractError>)
    ensures
        (match spec_swap_event(attrs@) {
            Option::Some(v) => r == Ok::<(u128, u128, u64), ContractError>(v),
            Option::None => r == Err::<(u128, u128, u64), ContractError>(
                ContractError::CannotParseSwap,
            ),
        }),
{
    proof {
        reveal_strlit("type");
        reveal_strlit("input");
        reveal_strlit("output");
        reveal_strlit("quote_asset_amount");
        reveal_strlit("base_asset_amount");
        reveal_strlit("position_id");
    }
    let type_key: String = String::from_str("type");
    let kind: &String = match read_event(attrs, &type_key) {
        Ok(v) => v,
        Err(e) => {
            return Err(e);
        },
    };
    let input_tag: String = String::from_str("input");
    let output_tag: String = String::from_str("output");
    let is_input: bool = kind.eq(&input_tag);
    let is_output: bool = kind.eq(&output_tag);
    if !is_input && !is_output {
        return Err(ContractError::CannotParseSwap);
    }
    let quote_key: String = String::from_str("quote_asset_amount");
    let base_key: String = String::from_str("base_asset_amount");
    let first_key: &String = if is_input {
        &quote_key
    } else {
        &base_key
    };
    let second_key: &String = if is_input {
        &base_key
    } else {
        &quote_key
    };
    let first_str: &String = match read_event(attrs, first_key) {
        Ok(v) => v,
        Err(e) => {
            return Err(e);
        },
    };
    let second_str: &String = match read_event(attrs, second_key) {
        Ok(v) => v,
        Err(e) => {
            return Err(e);
        },
    };
    let id_key: String = String::from_str("position_id");
    let id_str: &String = match read_event(attrs, &id_key) {
        Ok(v) => v,
        Err(e) => {
            return Err(e);
        },
    };
    let input: u128 = match parse_u128(first_str) {
        Ok(v) => v,
        Err(e) => {
            return Err(e);
        },
    };
    let output: u128 = match parse_u128(second_str) {
        Ok(v) => v,
        Err(e) => {
            return Err(e);
        },
    };
    let position_id: u64 = match parse_u64(id_str) {
        Ok(v) => v,
        Err(e) => {
            return Err(e);
        },
    };
    proof {
        lemma_parse_nonneg(first_str@);
        lemma_parse_nonneg(second_str@);
        lemma_parse_nonneg(id_str@);
    }
    Ok((input, output, position_id))
}

/// The premium fraction and emitting address a funding settlement event
/// denotes: the signed decimal of the `premium_fraction` attribute — the
/// inverse of the `Integer` rendering — paired with the
/// `_contract_address` attribute.
pub open spec fn spec_funding_event(attrs: Seq<(String, String)>) -> Option<(int, Seq<char>)> {
    match spec_attr(attrs, "premium_fraction"@) {
        Option::Some(text) => match spec_parse_signed(text) {
            Option::Some(v) => if crate::integer::abs_int(v) <= u128::MAX as int {
                match spec_attr(attrs, "_contract_address"@) {
                    Option::Some(addr) => Option::Some((v, addr)),
                    Option::None => Option::None,
                }
            } else {
                Option::None
            },
            Option::None => Option::None,
        },
        Option::None => Option::None,
    }
}

/// Extracts the settled premium fraction and the settling market's address
/// from a funding settlement's event attributes.
pub fn parse_pay_funding(attrs: &Vec<(String, String)>) -> (r: Result<
    (Integer, String),
    ContractError,
>)
    ensures
        (match spec_funding_event(attrs@) {
            Option::Some(v) => (r matches Ok(x) && x.0.as_int() == v.0 && x.0.well_formed()
                && x.1@ == v.1),
            Option::None => r == Err::<(Integer, String), ContractError>(
                ContractError::CannotParseSwap,
            ),
        }),
{
    proof {
        reveal_strlit("premium_fraction");
        reveal_strlit("_contract_address");
    }
    let premium_key: String = String::from_str("premium_fraction");
    let premium_str: &String = match read_event(attrs, &premium_key) {
        Ok(v) => v,
        Err(e) => {
            return Err(e);
        },
    };
    let premium: Integer = match parse_integer(premium_str) {
        Ok(v) => v,
        Err(e) => {
            return Err(e);
        },
    };
    let sender_key: String = String::from_str("_contract_address");
    let sender: &String = match read_event(attrs, &sender_key) {
        Ok(v) => v,
        Err(e) => {
            return Err(e);
        },
    };
    Ok((premium, sender.clone()))
}

/// Applies a settled premium fraction to a market's funding series.
pub fn pay_funding_reply(vamm_map: &mut VammMap, premium_fraction: Integer) -> (r: Result<
    Integer,
    ContractError,
>)
    requires
        old(vamm_map).well_formed(),
        premium_fraction.well_formed(),
    ensures
        final(vamm_map).well_formed(),
        crate::integer::abs_int(
            premium_fraction.as_int() + spec_latest(premiums(*old(vamm_map))),
        ) <= u128::MAX as int ==> (r matches Ok(v) && premiums(*final(vamm_map)) == spec_append(
            premiums(*old(vamm_map)),
            premium_fraction.as_int(),
        ) && v.as_int() == premium_fraction.as_int() + spec_latest(premiums(*old(vamm_map)))),
        crate::integer::abs_int(
            premium_fraction.as_int() + spec_latest(premiums(*old(vamm_map))),
        ) > u128::MAX as int ==> r == Err::<Integer, ContractError>(ContractError::Overflow)
            && *final(vamm_map) == *old(vamm_map),
{
    let previous: Integer = crate::funding::latest_cumulative_premium_fraction(vamm_map);
    match premium_fraction.checked_add(&previous) {
        Some(_) => Ok(crate::funding::append_cumulative_premium_fraction(
            vamm_map,
            premium_fraction,
        )),
        None => Err(ContractError::Overflow),
    }
}

/// Finalizes an open: turns the pending descriptor and the executed
/// swap's amounts into the stored position.  The new position's size is
/// the swapped base amount, signed by side; its entry price is the quote
/// paid per base unit, scaled by `decimals`.
pub fn open_position_reply(
    store: &mut PositionStore,
    pending: &mut PendingSwaps,
    vamm_map: &VammMap,
    decimals: u128,
    input: u128,
    output: u128,
    position_id: u64,
    block_time: u64,
) -> (r: Result<Position, ContractError>)
    requires
        old(store).well_formed(),
        old(pending).well_formed(),
        vamm_map.well_formed(),
        decimals > 0,
    ensures
        final(store).well_formed(),
        final(pending).well_formed(),
        r is Err ==> *final(store) == *old(store) && *final(pending) == *old(pending),
        !crate::pending::spec_has_swap(old(pending).view(), position_id) ==> r == Err::<
            Position,
            ContractError,
        >(ContractError::SwapInfoNotFound),
        (forall|swap: TmpSwapInfo|
            old(pending).view().contains(swap) && swap.position_id == position_id && output == 0
                ==> r == Err::<Position, ContractError>(ContractError::ZeroInput)),
        (forall|swap: TmpSwapInfo|
            old(pending).view().contains(swap) && swap.position_id == position_id && output != 0
                && input as int * decimals as int <= u128::MAX as int ==> ({
                let entry_price = (input as int * decimals as int) / output as int;
                let position = spec_opened_position(
                    swap,
                    output,
                    entry_price as u128,
                    spec_latest_integer(*vamm_map),
                    block_time,
                );
                &&& r == Ok::<Position, ContractError>(position)
                &&& (forall|q: Position|
                    final(store).view().contains(q) <==> (q == position || (old(
                        store,
                    ).view().contains(q) && q.position_id != position_id)))
                &&& (forall|t: TmpSwapInfo|
                    final(pending).view().contains(t) <==> (old(pending).view().contains(t)
                        && t.position_id != position_id))
            })),
{
    let swap: TmpSwapInfo = match pending.read_tmp_swap(position_id) {
        Ok(s) => s,
        Err(e) => {
            return Err(e);
        },
    };
    proof {
        assert forall|t: TmpSwapInfo|
            old(pending).view().contains(t) && t.position_id == position_id implies t == swap by {
            crate::pending::lemma_swap_id_unique(old(pending).view(), t, swap);
        }
    }
    if output == 0 {
        return Err(ContractError::ZeroInput);
    }
    let entry_price: u128 = match checked_mul_div(input, decimals, output) {
        Ok(v) => v,
        Err(e) => {
            return Err(e);
        },
    };
    let size: Integer = match swap.side {
        Side::Buy => Integer::new_positive(output),
        Side::Sell => Integer::new_negative(output),
    };
    let latest: Integer = crate::funding::latest_cumulative_premium_fraction(vamm_map);
    let position: Position = Position {
        position_id,
        vamm: swap.vamm.clone(),
        pair: swap.pair.clone(),
        trader: swap.trader.clone(),
        side: swap.side,
        direction: side_to_direction(&swap.side),
        size,
        margin: swap.margin_amount,
        notional: swap.open_notional,
        entry_price,
        take_profit: swap.take_profit,
        stop_loss: swap.stop_loss,
        spread_fee: swap.spread_fee,
        toll_fee: swap.toll_fee,
        last_updated_premium_fraction: latest,
        block_time,
        expire_time: 0,
    };
    store.store_position(&position);
    pending.remove_tmp_swap(position_id);
    Ok(position)
}

/// The canonical latest cumulative premium fraction of a market, as an
/// `Integer` value.
pub open spec fn spec_latest_integer(vamm_map: VammMap) -> Integer {
    crate::integer::canonical_integer(spec_latest(premiums(vamm_map)))
}

/// The position an open finalizes into.
pub open spec fn spec_opened_position(
    swap: TmpSwapInfo,
    output: u128,
    entry_price: u128,
    latest: Integer,
    block_time: u64,
) -> Position {
    Position {
        position_id: swap.position_id,
        vamm: swap.vamm,
        pair: swap.pair,
        trader: swap.trader,
        side: swap.side,
        direction: (match swap.side {
            Side::Buy => Direction::AddToAmm,
            Side::Sell => Direction::RemoveFromAmm,
        }),
        size: (match swap.side {
            Side::Buy => Integer { negative: false, value: output },
            Side::Sell => Integer { negative: output > 0, value: output },
        }),
        margin: swap.margin_amount,
        notional: swap.open_notional,
        entry_price,
        take_profit: swap.take_profit,
        stop_loss: swap.stop_loss,
        spread_fee: swap.spread_fee,
        toll_fee: swap.toll_fee,
        last_updated_premium_fraction: latest,
        block_time,
        expire_time: 0,
    }
}

/// What a finalized close pays out: the remaining margin plus realized
/// profit (or less realized loss), the bad debt the vault must absorb, and
/// the realized funding payment.
#[derive(Clone, Copy, Debug, PartialEq, Eq, Structural)]
pub struct CloseOutcome {
    pub margin_payout: u128,
    pub bad_debt: u128,
    pub funding_payment: Integer,
    pub realized_pnl: Integer,
}

/// Finalizes a full close (or a liquidation's full close): realizes the
/// PnL of the executed swap against the stored notional, settles funding,
/// removes the position record and consumes the descriptor.  The remaining
/// margin is the payout; a negative balance becomes bad debt.
pub fn close_position_reply(
    store: &mut PositionStore,
    pending: &mut PendingSwaps,
    vamm_map: &VammMap,
    decimals: u128,
    output: u128,
    position_id: u64,
) -> (r: Result<CloseOutcome, ContractError>)
    requires
        old(store).well_formed(),
        old(pending).well_formed(),
        vamm_map.well_formed(),
        decimals > 0,
    ensures
        final(store).well_formed(),
        final(pending).well_formed(),
        r is Err ==> *final(store) == *old(store) && *final(pending) == *old(pending),
        !crate::pending::spec_has_swap(old(pending).view(), position_id) ==> r == Err::<
            CloseOutcome,
            ContractError,
        >(ContractError::SwapInfoNotFound),
        crate::pending::spec_has_swap(old(pending).view(), position_id)
            && !crate::store::spec_contains_id(old(store).view(), position_id) ==> r == Err::<
            CloseOutcome,
            ContractError,
        >(ContractError::PositionNotFound),
        (forall|p: Position|
            old(store).view().contains(p) && p.position_id == position_id
                && crate::pending::spec_has_swap(old(pending).view(), position_id)
                && spec_close_feasible(p, output, spec_latest_integer(*vamm_map), decimals) ==> ({
                let pnl = crate::margin::spec_unrealized_pnl(
                    p.direction,
                    p.notional as int,
                    output as int,
                );
                let funding = crate::margin::spec_funding_payment(
                    p.size.as_int(),
                    p.last_updated_premium_fraction.as_int(),
                    spec_latest_integer(*vamm_map).as_int(),
                    decimals as int,
                );
                let unclamped = crate::margin::spec_unclamped_margin(p.margin as int, pnl, funding);
                &&& (r matches Ok(outcome) && outcome.margin_payout as int == (if unclamped >= 0 {
                    unclamped
                } else {
                    0int
                }) && outcome.bad_debt as int == (if unclamped < 0 {
                    -unclamped
                } else {
                    0int
                }) && outcome.realized_pnl.as_int() == pnl)
                &&& (forall|q: Position|
                    final(store).view().contains(q) <==> (old(store).view().contains(q)
                        && q.position_id != position_id))
                &&& (forall|t: TmpSwapInfo|
                    final(pending).view().contains(t) <==> (old(pending).view().contains(t)
                        && t.position_id != position_id))
            })),
{
    let swap: TmpSwapInfo = match pending.read_tmp_swap(position_id) {
        Ok(s) => s,
        Err(e) => {
            return Err(e);
        },
    };
    let position: Position = match store.read_position(position_id) {
        Ok(p) => p,
        Err(e) => {
            return Err(e);
        },
    };
    proof {
        assert forall|p: Position|
            old(store).view().contains(p) && p.position_id == position_id implies p == position by {
            crate::store::lemma_id_unique(old(store).view(), p, position);
        }
    }
    let latest: Integer = crate::funding::latest_cumulative_premium_fraction(vamm_map);
    if !close_bounds_hold(&position, output, latest, decimals) {
        return Err(ContractError::Overflow);
    }
    let pnl: crate::types::PositionUnrealizedPnlResponse =
        crate::margin::position_notional_unrealized_pnl(&position, output);
    let remain: crate::types::RemainMarginResponse =
        crate::margin::calc_remain_margin_with_funding_payment(
        &position,
        pnl.unrealized_pnl,
        latest,
        decimals,
    );
    store.remove_position(&position);
    pending.remove_tmp_swap(position_id);
    proof {
        assert forall|q: Position|
            final(store).view().contains(q) <==> (old(store).view().contains(q) && q.position_id
                != position_id) by {}
    }
    Ok(
        CloseOutcome {
            margin_payout: remain.margin,
            bad_debt: remain.bad_debt,
            funding_payment: remain.funding_payment,
            realized_pnl: pnl.unrealized_pnl,
        },
    )
}

/// The intermediate values of a close settlement stay within the 128-bit
/// range.  A close of a zero-size position is never feasible (nothing is
/// pending for it).
pub open spec fn spec_close_feasible(
    p: Position,
    output: u128,
    latest: Integer,
    decimals: u128,
) -> bool {
    let pnl = crate::margin::spec_unrealized_pnl(p.direction, p.notional as int, output as int);
    let funding = crate::margin::spec_funding_payment(
        p.size.as_int(),
        p.last_updated_premium_fraction.as_int(),
        latest.as_int(),
        decimals as int,
    );
    &&& p.size.as_int() != 0
    &&& crate::integer::abs_int(latest.as_int() - p.last_updated_premium_fraction.as_int())
        <= u128::MAX as int
    &&& crate::integer::abs_int(
        (latest.as_int() - p.last_updated_premium_fraction.as_int()) * p.size.as_int(),
    ) <= u128::MAX as int
    &&& crate::integer::abs_int(pnl - funding) <= u128::MAX as int
    &&& crate::integer::abs_int(
        crate::margin::spec_unclamped_margin(p.margin as int, pnl, funding),
    ) <= u128::MAX as int
}

/// The executable check behind `spec_close_feasible`.
fn close_bounds_hold(p: &Position, output: u128, latest: Integer, decimals: u128) -> (r: bool)
    requires
        p.well_formed(),
        latest.well_formed(),
        decimals > 0,
    ensures
        r == spec_close_feasible(*p, output, latest, decimals),
{
    if p.size.is_zero() {
        return false;
    }
    let diff: Integer = match latest.checked_sub(&p.last_updated_premium_fraction) {
        Some(v) => v,
        None => {
            return false;
        },
    };
    let product: Integer = match diff.checked_mul(&p.size) {
        Some(v) => v,
        None => {
            return false;
        },
    };
    let funding: Integer = product.checked_div(&Integer::new_positive(decimals)).unwrap();
    let pnl: crate::types::PositionUnrealizedPnlResponse =
        crate::margin::position_notional_unrealized_pnl(p, output);
    let after_delta: Integer = match pnl.unrealized_pnl.checked_sub(&funding) {
        Some(v) => v,
        None => {
            return false;
        },
    };
    match after_delta.checked_add(&Integer::new_positive(p.margin)) {
        Some(_) => true,
        None => false,
    }
}

/// Routes a successful swap outcome to its finalize step, or surfaces the
/// kind-tagged failure of the asynchronous call.
pub fn reply_error(kind: ReplyKind) -> (r: ContractError)
    ensures
        r == ContractError::ReplyFailure(kind),
{
    ContractError::ReplyFailure(kind)
}

} // verus!
