//! The position store for one market.
//!
//! Positions are held sorted by their globally unique identifier.  Reads
//! are paginated: a page is at most 100 records (10 when no limit is
//! given), an ascending scan resumes strictly after the `start_after`
//! identifier, and a descending scan uses it as an exclusive upper bound.

use vstd::prelude::*;
use crate::error::ContractError;
use crate::types::{Position, PositionFilter, Side};

verus! {

/// Scan direction of a paginated read.
#[derive(Clone, Copy, Debug, PartialEq, Eq, Structural)]
pub enum Order {
    Ascending,
    Descending,
}

/// Page size used when the caller gives no limit.
pub const DEFAULT_LIMIT: u32 = 10;

/// Largest page size a caller can request.
pub const MAX_LIMIT: u32 = 100;

/// Identifiers strictly increase along the store.
pub open spec fn sorted_by_id(s: Seq<Position>) -> bool {
    forall|i: int, j: int|
        0 <= i < j < s.len() ==> s[i].position_id < s[j].position_id
}

/// Every stored position is well-formed.
pub open spec fn all_well_formed(s: Seq<Position>) -> bool {
    forall|i: int| 0 <= i < s.len() ==> (#[trigger] s[i]).well_formed()
}

/// Whether some stored position carries the given identifier.
pub open spec fn spec_contains_id(s: Seq<Position>, position_id: u64) -> bool {
    exists|i: int| 0 <= i < s.len() && (#[trigger] s[i]).position_id == position_id
}

/// The number of positions resting on one `(side, entry price)` tick.
pub open spec fn spec_tick_count(s: Seq<Position>, side: Side, entry_price: u128) -> nat {
    s.filter(|p: Position| p.side == side && p.entry_price == entry_price).len()
}

/// The page size a request resolves to: the default when absent or zero,
/// and never above the maximum.
pub open spec fn spec_effective_limit(limit: Option<u32>) -> nat {
    let requested = match limit {
        Option::Some(l) => if l == 0 {
            DEFAULT_LIMIT as nat
        } else {
            l as nat
        },
        Option::None => DEFAULT_LIMIT as nat,
    };
    if requested > MAX_LIMIT as nat {
        MAX_LIMIT as nat
    } else {
        requested
    }
}

/// Whether a position matches a listing request: the identifier range in
/// scan direction, and the optional side, trader and price filters.
pub open spec fn spec_matches(
    p: Position,
    ascending: bool,
    start_after: Option<u64>,
    side: Option<Side>,
    trader: Option<Seq<char>>,
    entry_price: Option<u128>,
) -> bool {
    &&& match start_after {
        Option::Some(s) => if ascending {
            p.position_id > s
        } else {
            p.position_id < s
        },
        Option::None => true,
    }
    &&& match side {
        Option::Some(d) => p.side == d,
        Option::None => true,
    }
    &&& match trader {
        Option::Some(t) => p.trader@ == t,
        Option::None => true,
    }
    &&& match entry_price {
        Option::Some(pr) => p.entry_price == pr,
        Option::None => true,
    }
}

/// The membership test of a listing request, as a function value.
pub open spec fn page_pred(
    ascending: bool,
    start_after: Option<u64>,
    side: Option<Side>,
    trader: Option<Seq<char>>,
    entry_price: Option<u128>,
) -> spec_fn(Position) -> bool {
    |p: Position| spec_matches(p, ascending, start_after, side, trader, entry_price)
}

/// The page a listing request returns, as a function of the store's
/// contents: the matching positions in scan order, cut to the page size.
pub open spec fn spec_page(
    s: Seq<Position>,
    ascending: bool,
    start_after: Option<u64>,
    side: Option<Side>,
    trader: Option<Seq<char>>,
    entry_price: Option<u128>,
    limit: Option<u32>,
) -> Seq<Position> {
    let scan = if ascending {
        s
    } else {
        s.reverse()
    };
    let matching = scan.filter(page_pred(ascending, start_after, side, trader, entry_price));
    if matching.len() <= spec_effective_limit(limit) {
        matching
    } else {
        matching.take(spec_effective_limit(limit) as int)
    }
}

/// Filtering one more element extends the filtered prefix exactly when the
/// element matches.
proof fn lemma_filter_take_step<A>(s: Seq<A>, pred: spec_fn(A) -> bool, i: int)
    requires
        0 <= i < s.len(),
    ensures
        s.take(i + 1).filter(pred) == if pred(s[i]) {
            s.take(i).filter(pred).push(s[i])
        } else {
            s.take(i).filter(pred)
        },
{
    reveal_with_fuel(Seq::filter, 2);
    assert(s.take(i + 1).drop_last() =~= s.take(i));
    assert(s.take(i + 1).last() == s[i]);
}

/// Inserting adds exactly one element to a sequence's membership.
proof fn lemma_insert_contains<A>(s: Seq<A>, j: int, v: A)
    requires
        0 <= j <= s.len(),
    ensures
        forall|x: A| s.insert(j, v).contains(x) <==> (x == v || s.contains(x)),
{
    let t = s.insert(j, v);
    assert forall|x: A| t.contains(x) implies (x == v || s.contains(x)) by {
        let k = choose|k: int| 0 <= k < t.len() && t[k] == x;
        if k < j {
            assert(s[k] == x);
        } else if k > j {
            assert(s[k - 1] == x);
        }
    }
    assert forall|x: A| (x == v || s.contains(x)) implies t.contains(x) by {
        if x == v {
            assert(t[j] == x);
        } else {
            let k = choose|k: int| 0 <= k < s.len() && s[k] == x;
            if k < j {
                assert(t[k] == x);
            } else {
                assert(t[k + 1] == x);
            }
        }
    }
}

/// Removing an element from a store whose identifiers are unique removes
/// exactly that element from its membership.
proof fn lemma_remove_contains(s: Seq<Position>, i: int)
    requires
        0 <= i < s.len(),
        sorted_by_id(s),
    ensures
        forall|x: Position| s.remove(i).contains(x) <==> (s.contains(x) && x != s[i]),
{
    let t = s.remove(i);
    assert forall|x: Position| t.contains(x) implies (s.contains(x) && x != s[i]) by {
        let k = choose|k: int| 0 <= k < t.len() && t[k] == x;
        if k < i {
            assert(s[k] == x);
            assert(s[k].position_id < s[i].position_id);
        } else {
            assert(s[k + 1] == x);
            assert(s[i].position_id < s[k + 1].position_id);
        }
    }
    assert forall|x: Position| (s.contains(x) && x != s[i]) implies t.contains(x) by {
        let k = choose|k: int| 0 <= k < s.len() && s[k] == x;
        if k < i {
            assert(t[k] == x);
        } else {
            assert(k != i);
            assert(t[k - 1] == x);
        }
    }
}

/// Two stored positions with the same identifier are the same record.
pub proof fn lemma_id_unique(s: Seq<Position>, p: Position, q: Position)
    requires
        sorted_by_id(s),
        s.contains(p),
        s.contains(q),
        p.position_id == q.position_id,
    ensures
        p == q,
{
    let i = choose|i: int| 0 <= i < s.len() && s[i] == p;
    let j = choose|j: int| 0 <= j < s.len() && s[j] == q;
    if i < j {
        assert(s[i].position_id < s[j].position_id);
    } else if j < i {
        assert(s[j].position_id < s[i].position_id);
    }
}

/// The primary store of one market's positions.
pub struct PositionStore {
    pub positions: Vec<Position>,
}

impl PositionStore {
    pub open spec fn view(self) -> Seq<Position> {
        self.positions@
    }

    pub open spec fn well_formed(self) -> bool {
        sorted_by_id(self.view()) && all_well_formed(self.view())
    }

    pub fn new() -> (r: Self)
        ensures
            r.view().len() == 0,
            r.well_formed(),
    {
        PositionStore { positions: Vec::new() }
    }

    pub fn len(&self) -> (r: usize)
        ensures
            r == self.view().len(),
    {
        self.positions.len()
    }

    /// The index holding the identifier, if any.
    fn find_index(&self, position_id: u64) -> (r: Option<usize>)
        ensures
            r matches Some(i) ==> i < self.view().len() && self.view()[i as int].position_id
                == position_id,
            r is None ==> forall|i: int|
                0 <= i < self.view().len() ==> (#[trigger] self.view()[i]).position_id
                    != position_id,
    {
        let n: usize = self.positions.len();
        let mut i: usize = 0;
        while i < n
            invariant
                n == self.view().len(),
                i <= n,
                forall|k: int|
                    0 <= k < i ==> (#[trigger] self.view()[k]).position_id != position_id,
            decreases n - i,
        {
            if self.positions[i].position_id == position_id {
                return Some(i);
            }
            i = i + 1;
        }
        None
    }

    /// Reads the position stored under an identifier.
    pub fn read_position(&self, position_id: u64) -> (r: Result<Position, ContractError>)
        requires
            self.well_formed(),
        ensures
            r is Ok <==> spec_contains_id(self.view(), position_id),
            r matches Ok(p) ==> self.view().contains(p) && p.position_id == position_id,
            r is Err ==> r == Err::<Position, ContractError>(ContractError::PositionNotFound),
    {
        match self.find_index(position_id) {
            Some(i) => {
                let p: Position = self.positions[i].duplicate();
                proof {
                    assert(self.view().contains(self.view()[i as int]));
                }
                Ok(p)
            },
            None => {
                proof {
                    if spec_contains_id(self.view(), position_id) {
                        let i = choose|i: int|
                            0 <= i < self.view().len() && (#[trigger] self.view()[i]).position_id
                                == position_id;
                    }
                }
                Err(ContractError::PositionNotFound)
            },
        }
    }

    /// Stores a position, replacing any record with the same identifier,
    /// and returns how many positions now rest on the record's price tick.
    #[verifier::rlimit(60)]
    pub fn store_position(&mut self, position: &Position) -> (r: u64)
        requires
            old(self).well_formed(),
            position.well_formed(),
        ensures
            final(self).well_formed(),
            forall|p: Position|
                final(self).view().contains(p) <==> (p == *position || (old(self).view().contains(
                    p,
                ) && p.position_id != position.position_id)),
            final(self).view().len() == old(self).view().len() + (if spec_contains_id(
                old(self).view(),
                position.position_id,
            ) {
                0int
            } else {
                1int
            }),
            r == spec_tick_count(final(self).view(), position.side, position.entry_price),
    {
        let ghost s0 = self.view();
        match self.find_index(position.position_id) {
            Some(i) => {
                proof {
                    lemma_remove_contains(s0, i as int);
                    assert(s0.contains(s0[i as int]));
                    s0.remove_ensures(i as int);
                    s0.remove(i as int).insert_ensures(i as int, *position);
                }
                let _replaced: Position = self.positions.remove(i);
                proof {
                    lemma_insert_contains(s0.remove(i as int), i as int, *position);
                }
                self.positions.insert(i, position.duplicate());
                proof {
                    let s1 = self.view();
                    assert forall|a: int, b: int| 0 <= a < b < s1.len() implies s1[a].position_id
                        < s1[b].position_id by {
                        assert(s0[a].position_id < s0[b].position_id);
                    }
                    assert forall|k: int| 0 <= k < s1.len() implies (#[trigger] s1[k]).well_formed()
                    by {
                        assert(s0[k].well_formed());
                    }
                    assert(spec_contains_id(s0, position.position_id));
                    assert forall|p: Position|
                        final(self).view().contains(p) <==> (p == *position || (s0.contains(p)
                            && p.position_id != position.position_id)) by {
                        lemma_remove_contains(s0, i as int);
                        lemma_insert_contains(s0.remove(i as int), i as int, *position);
                        if s0.contains(p) && p != s0[i as int] && p.position_id
                            == position.position_id {
                            lemma_id_unique(s0, p, s0[i as int]);
                        }
                    }
                }
            },
            None => {
                let n: usize = self.positions.len();
                let mut j: usize = 0;
                while j < n && self.positions[j].position_id < position.position_id
                    invariant
                        n == self.view().len(),
                        j <= n,
                        forall|k: int|
                            0 <= k < j ==> (#[trigger] self.view()[k]).position_id
                                < position.position_id,
                        self.view() == s0,
                    decreases n - j,
                {
                    j = j + 1;
                }
                proof {
                    if j < n {
                        assert(s0[j as int].position_id != position.position_id);
                        assert(s0[j as int].position_id > position.position_id);
                    }
                    lemma_insert_contains(s0, j as int, *position);
                    s0.insert_ensures(j as int, *position);
                }
                self.positions.insert(j, position.duplicate());
                proof {
                    let s1 = self.view();
                    assert forall|a: int, b: int| 0 <= a < b < s1.len() implies s1[a].position_id
                        < s1[b].position_id by {
                        if b < j {
                            assert(s0[a].position_id < s0[b].position_id);
                        } else if a < j && b == j {
                        } else if a < j && b > j {
                            assert(s0[a].position_id < s0[b - 1].position_id);
                        } else if a == j {
                            assert(s0[j as int].position_id > position.position_id);
                            if b - 1 > j {
                                assert(s0[j as int].position_id < s0[b - 1].position_id);
                            }
                            assert(s0[b - 1].position_id > position.position_id);
                        } else {
                            assert(s0[a - 1].position_id < s0[b - 1].position_id);
                        }
                    }
                    assert forall|k: int| 0 <= k < s1.len() implies (#[trigger] s1[k]).well_formed()
                    by {
                        if k < j {
                            assert(s0[k].well_formed());
                        } else if k > j {
                            assert(s0[k - 1].well_formed());
                        }
                    }
                    assert(!spec_contains_id(s0, position.position_id));
                }
            },
        }
        self.tick_count(position.side, position.entry_price)
    }

    /// Removes the record with the given position's identifier, if present,
    /// and returns how many positions still rest on its price tick.
    pub fn remove_position(&mut self, position: &Position) -> (r: u64)
        requires
            old(self).well_formed(),
        ensures
            final(self).well_formed(),
            forall|p: Position|
                final(self).view().contains(p) <==> (old(self).view().contains(p)
                    && p.position_id != position.position_id),
            final(self).view().len() == old(self).view().len() - (if spec_contains_id(
                old(self).view(),
                position.position_id,
            ) {
                1int
            } else {
                0int
            }),
            r == spec_tick_count(final(self).view(), position.side, position.entry_price),
    {
        let ghost s0 = self.view();
        match self.find_index(position.position_id) {
            Some(i) => {
                proof {
                    lemma_remove_contains(s0, i as int);
                    assert(s0.contains(s0[i as int]));
                    s0.remove_ensures(i as int);
                }
                let _removed: Position = self.positions.remove(i);
                proof {
                    let s1 = self.view();
                    assert forall|a: int, b: int| 0 <= a < b < s1.len() implies s1[a].position_id
                        < s1[b].position_id by {
                        assert(s0.remove(i as int) =~= s1);
                        if b < i {
                            assert(s0[a].position_id < s0[b].position_id);
                        } else if a < i {
                            assert(s0[a].position_id < s0[b + 1].position_id);
                        } else {
                            assert(s0[a + 1].position_id < s0[b + 1].position_id);
                        }
                    }
                    assert forall|k: int| 0 <= k < s1.len() implies (#[trigger] s1[k]).well_formed()
                    by {
                        if k < i {
                            assert(s0[k].well_formed());
                        } else {
                            assert(s0[k + 1].well_formed());
                        }
                    }
                    assert(forall|p: Position|
                        final(self).view().contains(p) <==> (s0.contains(p) && p.position_id
                            != position.position_id)) by {
                        assert forall|p: Position| s0.contains(p) && p != s0[i as int] implies
                            p.position_id != position.position_id by {
                            if p.position_id == position.position_id {
                                lemma_id_unique(s0, p, s0[i as int]);
                            }
                        }
                    }
                    assert(spec_contains_id(s0, position.position_id));
                }
            },
            None => {
                proof {
                    if spec_contains_id(s0, position.position_id) {
                        let i = choose|i: int|
                            0 <= i < s0.len() && (#[trigger] s0[i]).position_id
                                == position.position_id;
                    }
                    assert forall|p: Position| s0.contains(p) implies p.position_id
                        != position.position_id by {
                        let k = choose|k: int| 0 <= k < s0.len() && s0[k] == p;
                    }
                }
            },
        }
        self.tick_count(position.side, position.entry_price)
    }

    /// How many positions rest on one `(side, entry price)` tick.
    pub fn tick_count(&self, side: Side, entry_price: u128) -> (r: u64)
        ensures
            r == spec_tick_count(self.view(), side, entry_price),
    {
        let ghost pred = |p: Position| p.side == side && p.entry_price == entry_price;
        let n: usize = self.positions.len();
        let mut count: u64 = 0;
        let mut i: usize = 0;
        proof {
            assert(self.view().take(0).filter(pred) =~= Seq::<Position>::empty());
            assert(self.view().take(0).filter(pred).len() == 0);
        }
        while i < n
            invariant
                n == self.view().len(),
                i <= n,
                count == self.view().take(i as int).filter(pred).len(),
                count <= i,
                pred == (|p: Position| p.side == side && p.entry_price == entry_price),
            decreases n - i,
        {
            proof {
                lemma_filter_take_step(self.view(), pred, i as int);
            }
            if self.positions[i].side == side && self.positions[i].entry_price == entry_price {
                count = count + 1;
            }
            i = i + 1;
        }
        proof {
            assert(self.view().take(n as int) =~= self.view());
        }
        count
    }

    /// A paginated listing of all positions, in identifier order.
    pub fn read_positions(
        &self,
        start_after: Option<u64>,
        limit: Option<u32>,
        order_by: Option<Order>,
    ) -> (r: Vec<Position>)
        requires
            self.well_formed(),
        ensures
            r@ == spec_page(
                self.view(),
                order_by == Some(Order::Ascending),
                start_after,
                Option::None,
                Option::None,
                Option::None,
                limit,
            ),
    {
        self.list_page(start_after, Option::None, Option::None, Option::None, limit, order_by)
    }

    /// A paginated, filtered listing: by side, by trader, by price tick, or
    /// unfiltered.
    pub fn query_positions(
        &self,
        side: Option<Side>,
        filter: &PositionFilter,
        start_after: Option<u64>,
        limit: Option<u32>,
        order_by: Option<Order>,
    ) -> (r: Vec<Position>)
        requires
            self.well_formed(),
        ensures
            r@ == spec_page(
                self.view(),
                order_by == Some(Order::Ascending),
                start_after,
                side,
                match filter {
                    PositionFilter::Trader(t) => Option::Some(t@),
                    _ => Option::None,
                },
                match filter {
                    PositionFilter::Price(p) => Option::Some(*p),
                    _ => Option::None,
                },
                limit,
            ),
    {
        match filter {
            PositionFilter::Trader(t) => self.list_page(
                start_after,
                side,
                Option::Some(t),
                Option::None,
                limit,
                order_by,
            ),
            PositionFilter::Price(p) => self.list_page(
                start_after,
                side,
                Option::None,
                Option::Some(*p),
                limit,
                order_by,
            ),
            PositionFilter::NoFilter => self.list_page(
                start_after,
                side,
                Option::None,
                Option::None,
                limit,
                order_by,
            ),
        }
    }

    /// The shared scan behind every listing.
    fn list_page(
        &self,
        start_after: Option<u64>,
        side: Option<Side>,
        trader: Option<&String>,
        entry_price: Option<u128>,
        limit: Option<u32>,
        order_by: Option<Order>,
    ) -> (r: Vec<Position>)
        requires
            self.well_formed(),
        ensures
            r@ == spec_page(
                self.view(),
                order_by == Some(Order::Ascending),
                start_after,
                side,
                match trader {
                    Option::Some(t) => Option::Some(t@),
                    Option::None => Option::None,
                },
                entry_price,
                limit,
            ),
    {
        let ascending: bool = match order_by {
            Some(Order::Ascending) => true,
            _ => false,
        };
        let ghost trader_view: Option<Seq<char>> = match trader {
            Option::Some(t) => Option::Some(t@),
            Option::None => Option::None,
        };
        let ghost pred = page_pred(ascending, start_after, side, trader_view, entry_price);
        let ghost scan: Seq<Position> = if ascending {
            self.view()
        } else {
            self.view().reverse()
        };

        let given: u32 = match limit {
            Some(l) => l,
            None => DEFAULT_LIMIT,
        };
        let requested: u32 = if given == 0 {
            DEFAULT_LIMIT
        } else {
            given
        };
        let limit_eff: usize = if requested > MAX_LIMIT {
            MAX_LIMIT as usize
        } else {
            requested as usize
        };
        proof {
            assert(limit_eff as nat == spec_effective_limit(limit));
        }

        let n: usize = self.positions.len();
        let mut out: Vec<Position> = Vec::new();
        let mut i: usize = 0;
        proof {
            assert(scan.take(0).filter(pred) =~= Seq::<Position>::empty());
            assert(scan.take(0).filter(pred).len() == 0);
            assert(scan.len() == n);
        }
        while i < n && out.len() < limit_eff
            invariant
                self.well_formed(),
                n == self.view().len(),
                scan == (if ascending {
                    self.view()
                } else {
                    self.view().reverse()
                }),
                scan.len() == n,
                i <= n,
                out@ == (if scan.take(i as int).filter(pred).len() <= limit_eff {
                    scan.take(i as int).filter(pred)
                } else {
                    scan.take(i as int).filter(pred).take(limit_eff as int)
                }),
                out@.len() <= limit_eff,
                out@.len() == limit_eff ==> out@ == scan.take(i as int).filter(pred).take(
                    limit_eff as int,
                ),
                pred == page_pred(ascending, start_after, side, trader_view, entry_price),
                trader_view == (match trader {
                    Option::Some(t) => Option::Some(t@),
                    Option::None => Option::None,
                }),
            decreases n - i,
        {
            proof {
                lemma_filter_take_step(scan, pred, i as int);
            }
            let idx: usize = if ascending {
                i
            } else {
                n - 1 - i
            };
            let p: &Position = &self.positions[idx];
            proof {
                if !ascending {
                    assert(scan[i as int] == self.view()[n as int - 1 - i as int]);
                }
            }
            let mut ok: bool = true;
            match start_after {
                Some(s) => {
                    if ascending {
                        if !(p.position_id > s) {
                            ok = false;
                        }
                    } else {
                        if !(p.position_id < s) {
                            ok = false;
                        }
                    }
                },
                None => {},
            }
            match side {
                Some(d) => {
                    if p.side != d {
                        ok = false;
                    }
                },
                None => {},
            }
            match trader {
                Some(t) => {
                    if !(p.trader == *t) {
                        ok = false;
                    }
                },
                None => {},
            }
            match entry_price {
                Some(pr) => {
                    if p.entry_price != pr {
                        ok = false;
                    }
                },
                None => {},
            }
            if ok {
                out.push(p.duplicate());
            }
            proof {
                assert(ok == pred(scan[i as int]));
            }
            i = i + 1;
        }
        proof {
            if i < n {
                let fi = scan.take(i as int).filter(pred);
                let fn1 = scan.take(n as int).filter(pred);
                lemma_filter_prefix(scan, pred, i as int, n as int);
                assert(out@ =~= fn1.take(limit_eff as int));
            }
            assert(scan.take(n as int) =~= scan);
        }
        out
    }
}

/// A filtered prefix only grows along the scan, and its page-sized cut is
/// stable once full.
proof fn lemma_filter_prefix<A>(s: Seq<A>, pred: spec_fn(A) -> bool, i: int, n: int)
    requires
        0 <= i <= n <= s.len(),
    ensures
        s.take(i).filter(pred).len() <= s.take(n).filter(pred).len(),
        s.take(i).filter(pred) == s.take(n).filter(pred).take(s.take(i).filter(pred).len() as int),
    decreases n - i,
{
    if i < n {
        lemma_filter_take_step(s, pred, n - 1);
        lemma_filter_prefix(s, pred, i, n - 1);
        let fi = s.take(i).filter(pred);
        let fm = s.take(n - 1).filter(pred);
        let fn1 = s.take(n).filter(pred);
        assert(fi =~= fn1.take(fi.len() as int)) by {
            assert(fi =~= fm.take(fi.len() as int));
            if pred(s[n - 1]) {
                assert(fn1 =~= fm.push(s[n - 1]));
            }
        }
    } else {
        assert(s.take(i).filter(pred) =~= s.take(n).filter(pred).take(
            s.take(i).filter(pred).len() as int,
        ));
    }
}

} // verus!
