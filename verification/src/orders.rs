//! Order synthesis: from intents, cash and the account's positions to the
//! market orders one run places.

use crate::intent::{intent_views, Action, TradeIntent, TradeIntentView};
use crate::sizing::{
    lemma_buy_within_total, sell_full_quantity, sell_partial_quantity, spec_buy_total,
    spec_sell_full, spec_sell_partial, AllocationPlan, AllocationPlanView, Cash, CashView,
};
use crate::text::same_text;
use vstd::prelude::*;

verus! {

/// The side of the market an order stands on.
#[derive(Clone, Copy, Debug, PartialEq, Eq, Structural)]
pub enum Side {
    Buy,
    Sell,
}

/// A market order as a mathematical value.
pub struct OrderRequestView {
    pub symbol: Seq<char>,
    pub side: Side,
    pub quantity: int,
}

/// A market order for whole shares. Every order names a symbol and asks for
/// at least one share.
#[derive(Debug, PartialEq, Eq)]
pub struct OrderRequest {
    symbol: String,
    side: Side,
    quantity: u64,
}

impl View for OrderRequest {
    type V = OrderRequestView;

    closed spec fn view(&self) -> OrderRequestView {
        OrderRequestView { symbol: self.symbol@, side: self.side, quantity: self.quantity as int }
    }
}

impl OrderRequest {
    #[verifier::type_invariant]
    spec fn well_formed(self) -> bool {
        &&& self.symbol@.len() > 0
        &&& self.quantity >= 1
    }

    /// A market order; there is none for an empty symbol or for zero shares.
    pub fn market(symbol: &str, side: Side, quantity: u64) -> (made: Option<OrderRequest>)
        ensures
            made is Some <==> symbol@.len() > 0 && quantity >= 1,
            made matches Some(order) ==> order@ == (OrderRequestView {
                symbol: symbol@,
                side,
                quantity: quantity as int,
            }),
    {
        if symbol.is_empty() || quantity == 0 {
            None
        } else {
            Some(OrderRequest { symbol: symbol.to_owned(), side, quantity })
        }
    }

    /// The symbol to trade, which is not empty.
    pub fn symbol(&self) -> (symbol: &str)
        ensures
            symbol@ == self@.symbol,
            symbol@.len() > 0,
    {
        proof {
            use_type_invariant(self);
        }
        self.symbol.as_str()
    }

    /// The side of the market.
    pub fn side(&self) -> (side: Side)
        ensures
            side == self@.side,
    {
        self.side
    }

    /// The number of shares, which is at least one.
    pub fn quantity(&self) -> (quantity: u64)
        ensures
            quantity == self@.quantity,
            quantity >= 1,
    {
        proof {
            use_type_invariant(self);
        }
        self.quantity
    }
}

impl Clone for OrderRequest {
    /// An independent copy of this order.
    fn clone(&self) -> (copy: OrderRequest)
        ensures
            copy@ == self@,
    {
        proof {
            use_type_invariant(self);
        }
        OrderRequest { symbol: self.symbol.clone(), side: self.side, quantity: self.quantity }
    }
}

/// The views of a sequence of orders, in order.
pub open spec fn order_views(orders: Seq<OrderRequest>) -> Seq<OrderRequestView> {
    orders.map_values(|order: OrderRequest| order@)
}

/// A figure known for a symbol, as a mathematical value.
pub struct EntryView {
    pub symbol: Seq<char>,
    pub amount: int,
}

/// A position of the account: a symbol and the shares held of it.
#[derive(Clone, Debug, PartialEq, Eq)]
pub struct Holding {
    pub symbol: String,
    pub quantity: i64,
}

impl View for Holding {
    type V = EntryView;

    open spec fn view(&self) -> EntryView {
        EntryView { symbol: self.symbol@, amount: self.quantity as int }
    }
}

/// The latest daily close found for a symbol; zero stands for none.
#[derive(Clone, Debug, PartialEq, Eq)]
pub struct Quote {
    pub symbol: String,
    pub price: u64,
}

impl View for Quote {
    type V = EntryView;

    open spec fn view(&self) -> EntryView {
        EntryView { symbol: self.symbol@, amount: self.price as int }
    }
}

/// The views of a list of positions, in order.
pub open spec fn holding_views(holdings: Seq<Holding>) -> Seq<EntryView> {
    holdings.map_values(|holding: Holding| holding@)
}

/// The views of a list of quotes, in order.
pub open spec fn quote_views(quotes: Seq<Quote>) -> Seq<EntryView> {
    quotes.map_values(|quote: Quote| quote@)
}

/// The figure a list gives for `symbol`: that of the last entry naming it,
/// and zero where none does.
pub open spec fn spec_lookup(entries: Seq<EntryView>, symbol: Seq<char>) -> int
    decreases entries.len(),
{
    if entries.len() == 0 {
        0
    } else if entries.last().symbol == symbol {
        entries.last().amount
    } else {
        spec_lookup(entries.drop_last(), symbol)
    }
}

/// The shares held of `ticker`; zero where the account has no such position.
pub fn held_quantity(holdings: &Vec<Holding>, ticker: &str) -> (held: i64)
    ensures
        held == spec_lookup(holding_views(holdings@), ticker@),
{
    let ghost all = holding_views(holdings@);
    let mut i: usize = holdings.len();
    assert(all.take(i as int) == all);
    while i > 0
        invariant
            i <= holdings.len(),
            all == holding_views(holdings@),
            spec_lookup(all, ticker@) == spec_lookup(all.take(i as int), ticker@),
        decreases i,
    {
        i -= 1;
        proof {
            assert(all.take(i + 1).drop_last() == all.take(i as int));
            assert(all.take(i + 1).last() == holdings@[i as int]@);
        }
        if same_text(holdings[i].symbol.as_str(), ticker) {
            return holdings[i].quantity;
        }
    }
    0
}

/// The latest close known for `ticker`; zero where none is.
pub fn quoted_price(quotes: &Vec<Quote>, ticker: &str) -> (price: u64)
    ensures
        price == spec_lookup(quote_views(quotes@), ticker@),
{
    let ghost all = quote_views(quotes@);
    let mut i: usize = quotes.len();
    assert(all.take(i as int) == all);
    while i > 0
        invariant
            i <= quotes.len(),
            all == quote_views(quotes@),
            spec_lookup(all, ticker@) == spec_lookup(all.take(i as int), ticker@),
        decreases i,
    {
        i -= 1;
        proof {
            assert(all.take(i + 1).drop_last() == all.take(i as int));
            assert(all.take(i + 1).last() == quotes@[i as int]@);
        }
        if same_text(quotes[i].symbol.as_str(), ticker) {
            return quotes[i].price;
        }
    }
    0
}

/// The order one intent resolves to, given the shares held of its symbol and
/// the latest close for it: a buy sized by the plan unless no price is known;
/// a sale of all or of half of what is held unless that is no share at all;
/// nothing for an unknown action.
pub open spec fn spec_resolve(
    intent: TradeIntentView,
    plan: AllocationPlanView,
    held: int,
    price: int,
) -> Option<OrderRequestView> {
    match intent.action {
        Action::Buy => if price <= 0 {
            None
        } else {
            Some(
                OrderRequestView {
                    symbol: intent.ticker,
                    side: Side::Buy,
                    quantity: plan.buy_quantity(intent.notional_amount, price),
                },
            )
        },
        Action::SellFull => match spec_sell_full(held) {
            Some(shares) => Some(
                OrderRequestView { symbol: intent.ticker, side: Side::Sell, quantity: shares },
            ),
            None => None,
        },
        Action::SellPartial => match spec_sell_partial(held) {
            Some(shares) => Some(
                OrderRequestView { symbol: intent.ticker, side: Side::Sell, quantity: shares },
            ),
            None => None,
        },
        Action::Unknown => None,
    }
}

/// Whatever an intent resolves to is an order in the intent's symbol for at
/// least one share; it buys exactly where the intent is a buy, and a sale
/// never asks for more than is held.
pub proof fn lemma_resolved_order_is_sound(
    intent: TradeIntentView,
    plan: AllocationPlanView,
    held: int,
    price: int,
)
    ensures
        spec_resolve(intent, plan, held, price) matches Some(order) ==> {
            &&& order.symbol == intent.ticker
            &&& order.quantity >= 1
            &&& (order.side == Side::Buy <==> intent.action == Action::Buy)
            &&& (order.side == Side::Sell ==> order.quantity <= held)
        },
{
}

/// The view of an order that may be absent.
pub open spec fn optional_order_view(order: Option<OrderRequest>) -> Option<OrderRequestView> {
    match order {
        Some(o) => Some(o@),
        None => None,
    }
}

/// Resolves one intent of the batch the plan was made for. `held` is the
/// number of shares held of the intent's symbol and `price` the latest close
/// for it, zero where none is known.
pub fn resolve(intent: &TradeIntent, plan: &AllocationPlan, held: i64, price: u64) -> (order:
    Option<OrderRequest>)
    requires
        intent@.action == Action::Buy ==> intent@.notional_amount <= plan@.buy_total,
    ensures
        optional_order_view(order) == spec_resolve(intent@, plan@, held as int, price as int),
{
    let ticker = intent.ticker();
    match intent.action() {
        Action::Buy => {
            if price == 0 {
                None
            } else {
                let shares = plan.buy_quantity(intent.notional_amount(), price);
                Some(OrderRequest { symbol: ticker.to_owned(), side: Side::Buy, quantity: shares })
            }
        },
        Action::SellFull => match sell_full_quantity(held) {
            Some(shares) => Some(
                OrderRequest { symbol: ticker.to_owned(), side: Side::Sell, quantity: shares },
            ),
            None => None,
        },
        Action::SellPartial => match sell_partial_quantity(held) {
            Some(shares) => Some(
                OrderRequest { symbol: ticker.to_owned(), side: Side::Sell, quantity: shares },
            ),
            None => None,
        },
        Action::Unknown => None,
    }
}

/// The orders the first intents of a batch resolve to, in the intents' order.
pub open spec fn spec_resolve_all(
    intents: Seq<TradeIntentView>,
    plan: AllocationPlanView,
    holdings: Seq<EntryView>,
    quotes: Seq<EntryView>,
) -> Seq<OrderRequestView>
    decreases intents.len(),
{
    if intents.len() == 0 {
        Seq::empty()
    } else {
        let earlier = spec_resolve_all(intents.drop_last(), plan, holdings, quotes);
        let intent = intents.last();
        match spec_resolve(
            intent,
            plan,
            spec_lookup(holdings, intent.ticker),
            spec_lookup(quotes, intent.ticker),
        ) {
            Some(order) => earlier.push(order),
            None => earlier,
        }
    }
}

/// Every intent is resolved on its own: the orders of two runs of intents,
/// one after the other, are the orders of the first followed by those of the
/// second.
pub proof fn lemma_resolve_all_distributes(
    first: Seq<TradeIntentView>,
    second: Seq<TradeIntentView>,
    plan: AllocationPlanView,
    holdings: Seq<EntryView>,
    quotes: Seq<EntryView>,
)
    ensures
        spec_resolve_all(first + second, plan, holdings, quotes) == spec_resolve_all(
            first,
            plan,
            holdings,
            quotes,
        ) + spec_resolve_all(second, plan, holdings, quotes),
    decreases second.len(),
{
    if second.len() == 0 {
        assert(first + second == first);
    } else {
        lemma_resolve_all_distributes(first, second.drop_last(), plan, holdings, quotes);
        assert((first + second).drop_last() == first + second.drop_last());
        assert((first + second).last() == second.last());
    }
}

/// The orders one run places: none where the buys sum to zero; else what
/// each intent resolves to under the run's plan, in the intents' order.
pub open spec fn spec_orders(
    intents: Seq<TradeIntentView>,
    cash: CashView,
    holdings: Seq<EntryView>,
    quotes: Seq<EntryView>,
) -> Seq<OrderRequestView> {
    if spec_buy_total(intents) == 0 {
        Seq::empty()
    } else {
        spec_resolve_all(
            intents,
            AllocationPlanView { cash, buy_total: spec_buy_total(intents) },
            holdings,
            quotes,
        )
    }
}

/// Computes the orders of one run from a snapshot of the account: its cash,
/// its positions, and the latest close of each symbol that has one.
pub fn synthesize(
    intents: &Vec<TradeIntent>,
    cash: Cash,
    holdings: &Vec<Holding>,
    quotes: &Vec<Quote>,
) -> (orders: Vec<OrderRequest>)
    ensures
        order_views(orders@) == spec_orders(
            intent_views(intents@),
            cash@,
            holding_views(holdings@),
            quote_views(quotes@),
        ),
        spec_buy_total(intent_views(intents@)) == 0 ==> orders@.len() == 0,
        orders@.len() <= intents@.len(),
{
    let mut orders: Vec<OrderRequest> = Vec::new();
    let plan = match AllocationPlan::new(cash, intents) {
        Some(plan) => plan,
        None => {
            assert(order_views(orders@) == Seq::<OrderRequestView>::empty());
            return orders;
        },
    };
    let ghost all = intent_views(intents@);
    let mut i: usize = 0;
    assert(order_views(orders@) == Seq::<OrderRequestView>::empty());
    while i < intents.len()
        invariant
            i <= intents.len(),
            all == intent_views(intents@),
            plan@.cash == cash@,
            plan@.buy_total == spec_buy_total(all),
            forall|j: int| 0 <= j < intents.len() ==> (#[trigger] intents@[j])@.valid(),
            orders@.len() <= i,
            order_views(orders@) == spec_resolve_all(
                all.take(i as int),
                plan@,
                holding_views(holdings@),
                quote_views(quotes@),
            ),
        decreases intents.len() - i,
    {
        let intent = &intents[i];
        proof {
            assert forall|j: int| 0 <= j < all.len() implies (#[trigger] all[j]).valid() by {
                assert(all[j] == intents@[j]@);
            }
            lemma_buy_within_total(all, i as int);
            assert(all.take(i + 1).drop_last() == all.take(i as int));
            assert(all.take(i + 1).last() == intent@);
        }
        let held = held_quantity(holdings, intent.ticker());
        let price = quoted_price(quotes, intent.ticker());
        let ghost before = order_views(orders@);
        match resolve(intent, &plan, held, price) {
            Some(order) => {
                orders.push(order);
                assert(order_views(orders@) == before.push(order@));
            },
            None => {},
        }
        i += 1;
    }
    assert(all.take(intents.len() as int) == all);
    orders
}

} // verus!
