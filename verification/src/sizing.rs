//! Capital allocation: how much cash one run may commit, and how many shares
//! that buys or sells per intent. All of it is exact arithmetic on integers.

use crate::intent::{intent_views, Action, TradeIntent, TradeIntentView};
use vstd::prelude::*;

verus! {

/// An exact fraction `numer / denom`.
pub struct Fraction {
    pub numer: int,
    pub denom: int,
}

/// A cash balance as a mathematical value.
pub struct CashView {
    pub numer: int,
    pub denom: int,
}

/// An account's cash balance, held as the exact fraction `numer / denom` of
/// one currency unit. The denominator is never zero.
#[derive(Clone, Copy, Debug, PartialEq, Eq)]
pub struct Cash {
    numer: i64,
    denom: u64,
}

impl View for Cash {
    type V = CashView;

    closed spec fn view(&self) -> CashView {
        CashView { numer: self.numer as int, denom: self.denom as int }
    }
}

impl Cash {
    #[verifier::type_invariant]
    spec fn well_formed(self) -> bool {
        self.denom > 0
    }

    /// The balance `numer / denom`; there is none for a zero denominator.
    pub fn new(numer: i64, denom: u64) -> (made: Option<Cash>)
        ensures
            made is Some <==> denom != 0,
            made matches Some(cash) ==> cash@ == (CashView {
                numer: numer as int,
                denom: denom as int,
            }),
    {
        if denom == 0 {
            None
        } else {
            Some(Cash { numer, denom })
        }
    }

    /// A balance of `units` whole currency units.
    pub fn whole(units: i64) -> (cash: Cash)
        ensures
            cash@ == (CashView { numer: units as int, denom: 1 }),
    {
        Cash { numer: units, denom: 1 }
    }

    /// The numerator of the balance.
    pub fn numer(&self) -> (n: i64)
        ensures
            n == self@.numer,
    {
        self.numer
    }

    /// The denominator of the balance, which is positive.
    pub fn denom(&self) -> (d: u64)
        ensures
            d == self@.denom,
            d > 0,
    {
        proof {
            use_type_invariant(self);
        }
        self.denom
    }
}

/// The sum of the notional amounts of the buys among `intents`.
pub open spec fn spec_buy_total(intents: Seq<TradeIntentView>) -> int
    decreases intents.len(),
{
    if intents.len() == 0 {
        0
    } else {
        spec_buy_total(intents.drop_last()) + if intents.last().action == Action::Buy {
            intents.last().notional_amount
        } else {
            0
        }
    }
}

/// What one run may spend: a third of the account's cash.
pub open spec fn spec_available(cash: CashView) -> Fraction {
    Fraction { numer: cash.numer, denom: 3 * cash.denom }
}

/// The factor by which every buy is scaled: available cash over the sum of
/// all buys.
pub open spec fn spec_scale(cash: CashView, buy_total: int) -> Fraction {
    Fraction { numer: spec_available(cash).numer, denom: spec_available(cash).denom * buy_total }
}

/// The money one buy of size `notional` is given.
pub open spec fn spec_target(notional: int, cash: CashView, buy_total: int) -> Fraction {
    Fraction {
        numer: notional * spec_scale(cash, buy_total).numer,
        denom: spec_scale(cash, buy_total).denom,
    }
}

/// The shares one buy orders at `price`: its target over the price, rounded
/// down, and never less than one share.
pub open spec fn spec_buy_quantity(notional: int, cash: CashView, buy_total: int, price: int) -> int {
    let target = spec_target(notional, cash, buy_total);
    let shares = target.numer / (target.denom * price);
    if shares < 1 {
        1
    } else {
        shares
    }
}

/// The shares a full sale orders: all that is held, if anything is.
pub open spec fn spec_sell_full(held: int) -> Option<int> {
    if held <= 0 {
        None
    } else {
        Some(held)
    }
}

/// The shares a partial sale orders: half of what is held, rounded down, if
/// that is at least one share.
pub open spec fn spec_sell_partial(held: int) -> Option<int> {
    if held / 2 <= 0 {
        None
    } else {
        Some(held / 2)
    }
}

/// Sizes a full sale of a position of `held` shares.
pub fn sell_full_quantity(held: i64) -> (shares: Option<u64>)
    ensures
        shares is Some <==> held > 0,
        shares matches Some(n) ==> n == held,
        spec_sell_full(held as int) == match shares {
            Some(n) => Some(n as int),
            None => None,
        },
{
    if held <= 0 {
        None
    } else {
        Some(held as u64)
    }
}

/// Sizes a partial sale of a position of `held` shares.
pub fn sell_partial_quantity(held: i64) -> (shares: Option<u64>)
    ensures
        shares is Some <==> held >= 2,
        shares matches Some(n) ==> n == held / 2,
        spec_sell_partial(held as int) == match shares {
            Some(n) => Some(n as int),
            None => None,
        },
{
    if held < 2 {
        None
    } else {
        Some((held / 2) as u64)
    }
}

/// The plan of one run as a mathematical value.
pub struct AllocationPlanView {
    pub cash: CashView,
    pub buy_total: int,
}

impl AllocationPlanView {
    /// A third of the account's cash.
    pub open spec fn available(self) -> Fraction {
        spec_available(self.cash)
    }

    /// Available cash over the sum of all buys.
    pub open spec fn scale(self) -> Fraction {
        spec_scale(self.cash, self.buy_total)
    }

    /// The shares a buy of size `notional` orders at `price`.
    pub open spec fn buy_quantity(self, notional: int, price: int) -> int {
        spec_buy_quantity(notional, self.cash, self.buy_total, price)
    }
}

/// The figures one run sizes its buys by: the account's cash and the sum of
/// all buys.
#[derive(Clone, Copy, Debug, PartialEq, Eq)]
pub struct AllocationPlan {
    cash: Cash,
    buy_total: u128,
}

impl View for AllocationPlan {
    type V = AllocationPlanView;

    closed spec fn view(&self) -> AllocationPlanView {
        AllocationPlanView { cash: self.cash@, buy_total: self.buy_total as int }
    }
}

proof fn lemma_nonpositive_share(n: int, d: int)
    by (nonlinear_arith)
    requires
        n <= 0,
        d > 0,
    ensures
        n / d <= 0,
{
}

proof fn lemma_small_share(n: int, d: int)
    by (nonlinear_arith)
    requires
        0 <= n < d,
    ensures
        n / d == 0,
{
}

proof fn lemma_product_grows(x: int, p: int)
    by (nonlinear_arith)
    requires
        x >= 0,
        p >= 1,
    ensures
        x * p >= x,
{
}

proof fn lemma_share_bound(notional: int, numer: int, total: int, rest: int)
    by (nonlinear_arith)
    requires
        0 <= notional <= total,
        0 <= numer,
        0 < total,
        1 <= rest,
    ensures
        (notional * numer) / (total * rest) <= numer,
{
    assert(notional * numer <= total * numer);
    assert(total * rest >= total);
    assert((total * rest) * numer >= total * numer);
    assert((notional * numer) / (total * rest) <= numer) by {
        if (notional * numer) / (total * rest) > numer {
            assert((notional * numer) / (total * rest) >= numer + 1);
            assert(((notional * numer) / (total * rest)) * (total * rest) >= (numer + 1) * (total
                * rest));
            assert(((notional * numer) / (total * rest)) * (total * rest) <= notional * numer);
        }
    }
}

proof fn lemma_floor_monotone(x: int, y: int, u: int, v: int)
    requires
        y > 0,
        v > 0,
        x * v <= u * y,
    ensures
        x / y <= u / v,
{
    let q = x / y;
    assert(q * y <= x) by (nonlinear_arith)
        requires
            q == x / y,
            y > 0,
    ;
    assert((q * y) * v <= x * v) by (nonlinear_arith)
        requires
            q * y <= x,
            v > 0,
    ;
    assert((q * v) * y == (q * y) * v) by (nonlinear_arith);
    assert(q * v <= u) by (nonlinear_arith)
        requires
            (q * v) * y <= u * y,
            y > 0,
    ;
    assert(q <= u / v) by (nonlinear_arith)
        requires
            q * v <= u,
            v > 0,
    ;
}

/// With less cash in the account no buy grows: where `after` is at most
/// `before`, the same buy in the same batch at the same price orders at most
/// as many shares as it did.
pub proof fn lemma_less_cash_buys_no_more(
    notional: int,
    before: CashView,
    after: CashView,
    buy_total: int,
    price: int,
)
    requires
        0 <= notional,
        0 < buy_total,
        0 < price,
        0 < before.denom,
        0 < after.denom,
        after.numer * before.denom <= before.numer * after.denom,
    ensures
        spec_buy_quantity(notional, after, buy_total, price) <= spec_buy_quantity(
            notional,
            before,
            buy_total,
            price,
        ),
{
    let x = notional * after.numer;
    let y = ((3 * after.denom) * buy_total) * price;
    let u = notional * before.numer;
    let v = ((3 * before.denom) * buy_total) * price;
    let k = (3 * buy_total) * price;
    assert(k > 0) by (nonlinear_arith)
        requires
            k == (3 * buy_total) * price,
            buy_total > 0,
            price > 0,
    ;
    assert(y == after.denom * k && v == before.denom * k) by (nonlinear_arith)
        requires
            y == ((3 * after.denom) * buy_total) * price,
            v == ((3 * before.denom) * buy_total) * price,
            k == (3 * buy_total) * price,
    ;
    assert(y > 0 && v > 0) by (nonlinear_arith)
        requires
            y == after.denom * k,
            v == before.denom * k,
            k > 0,
            after.denom > 0,
            before.denom > 0,
    ;
    assert(x * v <= u * y) by (nonlinear_arith)
        requires
            x == notional * after.numer,
            u == notional * before.numer,
            y == after.denom * k,
            v == before.denom * k,
            k > 0,
            notional >= 0,
            after.numer * before.denom <= before.numer * after.denom,
    {
        assert((notional * k) * (after.numer * before.denom) <= (notional * k) * (before.numer
            * after.denom));
    }
    lemma_floor_monotone(x, y, u, v);
}

/// The money a buy is given is proportional to the account's cash: for two
/// balances over one denominator, the targets stand to each other as the
/// balances do.
pub proof fn lemma_target_proportional_to_cash(
    notional: int,
    before: CashView,
    after: CashView,
    buy_total: int,
)
    requires
        before.denom == after.denom,
    ensures
        spec_target(notional, after, buy_total).denom == spec_target(
            notional,
            before,
            buy_total,
        ).denom,
        spec_target(notional, after, buy_total).numer * before.numer == spec_target(
            notional,
            before,
            buy_total,
        ).numer * after.numer,
{
    assert((notional * after.numer) * before.numer == (notional * before.numer) * after.numer)
        by (nonlinear_arith);
}

/// The sum of the buys is never negative, and no buy is larger than it.
pub proof fn lemma_buy_within_total(intents: Seq<TradeIntentView>, i: int)
    requires
        forall|j: int| 0 <= j < intents.len() ==> (#[trigger] intents[j]).valid(),
        0 <= i < intents.len(),
    ensures
        0 <= spec_buy_total(intents),
        intents[i].action == Action::Buy ==> intents[i].notional_amount <= spec_buy_total(intents),
    decreases intents.len(),
{
    let rest = intents.drop_last();
    assert(intents.last().valid());
    if rest.len() > 0 {
        assert forall|j: int| 0 <= j < rest.len() implies (#[trigger] rest[j]).valid() by {
            assert(rest[j] == intents[j]);
        }
        if i < rest.len() {
            lemma_buy_within_total(rest, i);
        } else {
            lemma_buy_within_total(rest, 0);
        }
    } else {
        assert(spec_buy_total(rest) == 0);
    }
}

/// The sum of the notional amounts of the buys among `intents`.
pub fn buy_total(intents: &Vec<TradeIntent>) -> (total: u128)
    ensures
        total == spec_buy_total(intent_views(intents@)),
        forall|i: int| 0 <= i < intents.len() ==> (#[trigger] intents@[i])@.valid(),
{
    let mut total: u128 = 0;
    let mut i: usize = 0;
    while i < intents.len()
        invariant
            i <= intents.len(),
            total == spec_buy_total(intent_views(intents@.take(i as int))),
            total <= i * 0x7fff_ffff_ffff_ffff,
            forall|j: int| 0 <= j < i ==> (#[trigger] intents@[j])@.valid(),
        decreases intents.len() - i,
    {
        let intent = &intents[i];
        let amount = intent.notional_amount();
        proof {
            let before = intent_views(intents@.take(i as int));
            let after = intent_views(intents@.take(i + 1));
            assert(after.drop_last() == before);
            assert(after.last() == intent@);
        }
        match intent.action() {
            Action::Buy => {
                total = total + amount as u128;
            },
            _ => {},
        }
        i += 1;
    }
    assert(intents@.take(intents.len() as int) == intents@);
    total
}

impl AllocationPlan {
    #[verifier::type_invariant]
    spec fn well_formed(self) -> bool {
        self.buy_total > 0
    }

    /// The plan for a run over `intents` on an account holding `cash`. There
    /// is none where the buys sum to zero: such a run places no order.
    pub fn new(cash: Cash, intents: &Vec<TradeIntent>) -> (made: Option<AllocationPlan>)
        ensures
            made is Some <==> spec_buy_total(intent_views(intents@)) != 0,
            made matches Some(plan) ==> plan@.cash == cash@ && plan@.buy_total == spec_buy_total(
                intent_views(intents@),
            ),
            forall|i: int| 0 <= i < intents.len() ==> (#[trigger] intents@[i])@.valid(),
    {
        let total = buy_total(intents);
        if total == 0 {
            None
        } else {
            Some(AllocationPlan { cash, buy_total: total })
        }
    }

    /// The account's cash.
    pub fn cash(&self) -> (cash: Cash)
        ensures
            cash@ == self@.cash,
    {
        self.cash
    }

    /// The sum of all buys, which is positive.
    pub fn buy_total(&self) -> (total: u128)
        ensures
            total == self@.buy_total,
            total > 0,
    {
        proof {
            use_type_invariant(self);
        }
        self.buy_total
    }

    /// The shares a buy of size `notional` orders at `price`. The buy is one
    /// of those the plan was made for, and the price is a real one.
    pub fn buy_quantity(&self, notional: i64, price: u64) -> (shares: u64)
        requires
            0 <= notional <= self@.buy_total,
            price > 0,
        ensures
            shares == self@.buy_quantity(notional as int, price as int),
            shares >= 1,
    {
        proof {
            use_type_invariant(self);
            use_type_invariant(&self.cash);
        }
        let numer = self.cash.numer;
        let ghost n = notional as int * numer as int;
        let ghost d1 = 3 * self.cash.denom as int;
        let ghost d2 = d1 * self.buy_total as int;
        let ghost d = d2 * price as int;
        proof {
            lemma_product_grows(d1, self.buy_total as int);
            lemma_product_grows(d2, price as int);
        }
        if numer <= 0 || notional == 0 {
            proof {
                assert(n <= 0) by (nonlinear_arith)
                    requires
                        n == notional as int * numer as int,
                        notional >= 0,
                        numer <= 0 || notional == 0,
                ;
                lemma_nonpositive_share(n, d);
            }
            return 1;
        }
        assert(0 < n <= 0x7fff_ffff_ffff_ffff * 0x7fff_ffff_ffff_ffff) by (nonlinear_arith)
            requires
                n == notional as int * numer as int,
                0 < notional <= 0x7fff_ffff_ffff_ffff,
                0 < numer <= 0x7fff_ffff_ffff_ffff,
        ;
        let top: u128 = (notional as u128) * (numer as u128);
        let third: u128 = 3 * (self.cash.denom as u128);
        let scaled = match third.checked_mul(self.buy_total) {
            Some(v) => v,
            None => {
                proof {
                    lemma_small_share(n, d);
                }
                return 1;
            },
        };
        let bottom = match scaled.checked_mul(price as u128) {
            Some(v) => v,
            None => {
                proof {
                    lemma_small_share(n, d);
                }
                return 1;
            },
        };
        let shares: u128 = top / bottom;
        proof {
            assert(d == self.buy_total as int * (d1 * price as int)) by (nonlinear_arith)
                requires
                    d == (d1 * self.buy_total as int) * price as int,
            ;
            lemma_product_grows(d1, price as int);
            lemma_share_bound(notional as int, numer as int, self.buy_total as int, d1 * price as int);
        }
        if shares < 1 {
            1
        } else {
            shares as u64
        }
    }
}

} // verus!
