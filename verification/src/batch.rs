//! One run over a batch of intents as a step machine. The machine decides;
//! its driver does the outside work (price lookups, position fetches, order
//! submissions) and reports back what came of it.

use crate::intent::{intent_views, Action, TradeIntent, TradeIntentView};
use crate::orders::{
    held_quantity, holding_views, lemma_resolve_all_distributes, optional_order_view, resolve,
    spec_lookup, spec_orders, spec_resolve, spec_resolve_all, EntryView, Holding, OrderRequest,
    OrderRequestView,
};
use crate::sizing::{
    lemma_buy_within_total, spec_buy_total, AllocationPlan, AllocationPlanView, Cash, CashView,
};
use vstd::prelude::*;

verus! {

/// Where a batch stands between two steps.
#[derive(Clone, Copy, Debug, PartialEq, Eq, Structural)]
pub enum Phase {
    /// The next intent has not been looked at yet.
    Ready,
    /// The latest close of the current buy's symbol was asked for.
    AwaitingPrice,
    /// The account's positions were asked for, to size the current sale.
    AwaitingHoldings,
    /// The current intent's order was handed out for submission.
    AwaitingReceipt,
    /// Every intent was dealt with.
    Finished,
}

/// How a batch has fared so far.
#[derive(Clone, Copy, Debug, PartialEq, Eq, Structural)]
pub struct Summary {
    /// Orders the brokerage accepted.
    pub placed: usize,
    /// Orders the brokerage rejected.
    pub rejected: usize,
    /// Intents that led to no order.
    pub skipped: usize,
}

/// Why an intent led to no order.
#[derive(Clone, Copy, Debug, PartialEq, Eq, Structural)]
pub enum SkipReason {
    /// The filing's label names no known action.
    UnknownAction,
    /// No close is known for the symbol.
    NoPrice,
    /// Too little of the symbol is held to sell a share.
    NothingHeld,
}

/// What the driver reports to the machine, as a mathematical value.
pub enum EventView {
    Resume,
    Price(int),
    Holdings(Seq<EntryView>),
    Accepted,
    Rejected,
}

/// What the driver reports to the machine.
#[derive(Clone, Debug, PartialEq, Eq)]
pub enum Event {
    /// Nothing to report: go on with the batch.
    Resume,
    /// The latest daily close that was asked for; zero where none was found.
    Price(u64),
    /// The account's positions.
    Holdings(Vec<Holding>),
    /// The brokerage took the order.
    Accepted,
    /// The brokerage refused the order.
    Rejected,
}

impl View for Event {
    type V = EventView;

    open spec fn view(&self) -> EventView {
        match self {
            Event::Resume => EventView::Resume,
            Event::Price(price) => EventView::Price(*price as int),
            Event::Holdings(holdings) => EventView::Holdings(holding_views(holdings@)),
            Event::Accepted => EventView::Accepted,
            Event::Rejected => EventView::Rejected,
        }
    }
}

/// What the machine asks of its driver, as a mathematical value.
pub enum DirectiveView {
    FetchPrice(Seq<char>),
    FetchHoldings,
    Submit(OrderRequestView),
    Skipped(Seq<char>, SkipReason),
    Unexpected,
    Finished(Summary),
}

/// What the machine asks of its driver.
#[derive(Clone, Debug, PartialEq, Eq)]
pub enum Directive {
    /// Look up the latest daily close of this symbol and report `Price`.
    FetchPrice(String),
    /// Fetch the account's positions and report `Holdings`.
    FetchHoldings,
    /// Submit this order and report `Accepted` or `Rejected`.
    Submit(OrderRequest),
    /// The intent in this symbol led to no order; report `Resume`.
    Skipped(String, SkipReason),
    /// The event answered no pending request; nothing has changed.
    Unexpected,
    /// The batch is done.
    Finished(Summary),
}

impl View for Directive {
    type V = DirectiveView;

    open spec fn view(&self) -> DirectiveView {
        match self {
            Directive::FetchPrice(ticker) => DirectiveView::FetchPrice(ticker@),
            Directive::FetchHoldings => DirectiveView::FetchHoldings,
            Directive::Submit(order) => DirectiveView::Submit(order@),
            Directive::Skipped(ticker, reason) => DirectiveView::Skipped(ticker@, *reason),
            Directive::Unexpected => DirectiveView::Unexpected,
            Directive::Finished(summary) => DirectiveView::Finished(*summary),
        }
    }
}

/// A batch as a mathematical value.
pub struct BatchView {
    pub intents: Seq<TradeIntentView>,
    pub plan: Option<AllocationPlanView>,
    pub cursor: int,
    pub phase: Phase,
    pub summary: Summary,
}

impl BatchView {
    /// The intent the batch is at.
    pub open spec fn current(self) -> TradeIntentView {
        self.intents[self.cursor]
    }

    /// What holds of every batch: each intent before the cursor was counted
    /// once, as placed, rejected or skipped; a batch that waits for its
    /// driver is at an intent of the kind it asked about; and a batch whose
    /// buys sum to zero has no plan and looks at no intent.
    pub open spec fn consistent(self) -> bool {
        &&& 0 <= self.cursor <= self.intents.len() <= usize::MAX
        &&& self.summary.placed + self.summary.rejected + self.summary.skipped == self.cursor
        &&& forall|i: int| 0 <= i < self.intents.len() ==> (#[trigger] self.intents[i]).valid()
        &&& match self.plan {
            Some(plan) => plan.buy_total == spec_buy_total(self.intents) && plan.buy_total > 0,
            None => spec_buy_total(self.intents) == 0 && self.cursor == 0 && (self.phase
                == Phase::Ready || self.phase == Phase::Finished),
        }
        &&& match self.phase {
            Phase::Ready => true,
            Phase::AwaitingPrice => self.cursor < self.intents.len() && self.current().action
                == Action::Buy,
            Phase::AwaitingHoldings => self.cursor < self.intents.len() && (self.current().action
                == Action::SellFull || self.current().action == Action::SellPartial),
            Phase::AwaitingReceipt => self.cursor < self.intents.len(),
            Phase::Finished => self.plan is Some ==> self.cursor == self.intents.len(),
        }
    }

    /// The batch after its current intent was counted as skipped.
    pub open spec fn after_skip(self) -> BatchView {
        BatchView {
            cursor: self.cursor + 1,
            phase: Phase::Ready,
            summary: Summary { skipped: (self.summary.skipped + 1) as usize, ..self.summary },
            ..self
        }
    }

    /// The batch after its current intent's order was accepted.
    pub open spec fn after_accept(self) -> BatchView {
        BatchView {
            cursor: self.cursor + 1,
            phase: Phase::Ready,
            summary: Summary { placed: (self.summary.placed + 1) as usize, ..self.summary },
            ..self
        }
    }

    /// The batch after its current intent's order was rejected.
    pub open spec fn after_reject(self) -> BatchView {
        BatchView {
            cursor: self.cursor + 1,
            phase: Phase::Ready,
            summary: Summary { rejected: (self.summary.rejected + 1) as usize, ..self.summary },
            ..self
        }
    }

    /// The batch in another phase.
    pub open spec fn in_phase(self, phase: Phase) -> BatchView {
        BatchView { phase, ..self }
    }
}

/// What a ready batch does next: it ends where no intent is left or no buy
/// is to be sized; it asks for a price before a buy and for the positions
/// before a sale; it skips an intent whose action is unknown.
pub open spec fn spec_dispatch(batch: BatchView) -> (BatchView, DirectiveView) {
    if batch.plan is None || batch.cursor >= batch.intents.len() {
        (batch.in_phase(Phase::Finished), DirectiveView::Finished(batch.summary))
    } else {
        match batch.current().action {
            Action::Buy => (
                batch.in_phase(Phase::AwaitingPrice),
                DirectiveView::FetchPrice(batch.current().ticker),
            ),
            Action::SellFull | Action::SellPartial => (
                batch.in_phase(Phase::AwaitingHoldings),
                DirectiveView::FetchHoldings,
            ),
            Action::Unknown => (
                batch.after_skip(),
                DirectiveView::Skipped(batch.current().ticker, SkipReason::UnknownAction),
            ),
        }
    }
}

/// What a batch does with a resolved intent: it hands the order out, or
/// skips the intent for the given reason.
pub open spec fn spec_issue(
    batch: BatchView,
    order: Option<OrderRequestView>,
    reason: SkipReason,
) -> (BatchView, DirectiveView) {
    match order {
        Some(o) => (batch.in_phase(Phase::AwaitingReceipt), DirectiveView::Submit(o)),
        None => (batch.after_skip(), DirectiveView::Skipped(batch.current().ticker, reason)),
    }
}

/// One step of the machine: the batch and the directive that follow from a
/// batch and an event. A ready batch goes on to its next intent whatever
/// the event. A waiting batch takes the answer to what it asked for: a
/// price sizes the buy, the positions size the sale, a receipt is counted
/// and the batch goes on. Any other event changes nothing. A finished batch
/// stays finished.
pub open spec fn spec_step(batch: BatchView, event: EventView) -> (BatchView, DirectiveView) {
    match batch.phase {
        Phase::Ready => spec_dispatch(batch),
        Phase::Finished => (batch, DirectiveView::Finished(batch.summary)),
        Phase::AwaitingPrice => match event {
            EventView::Price(price) => spec_issue(
                batch,
                spec_resolve(batch.current(), batch.plan->0, 0, price),
                SkipReason::NoPrice,
            ),
            _ => (batch, DirectiveView::Unexpected),
        },
        Phase::AwaitingHoldings => match event {
            EventView::Holdings(holdings) => spec_issue(
                batch,
                spec_resolve(
                    batch.current(),
                    batch.plan->0,
                    spec_lookup(holdings, batch.current().ticker),
                    0,
                ),
                SkipReason::NothingHeld,
            ),
            _ => (batch, DirectiveView::Unexpected),
        },
        Phase::AwaitingReceipt => match event {
            EventView::Accepted => spec_dispatch(batch.after_accept()),
            EventView::Rejected => spec_dispatch(batch.after_reject()),
            _ => (batch, DirectiveView::Unexpected),
        },
    }
}

/// A batch as it is opened over `intents` on an account holding `cash`: at
/// its first intent, nothing counted, and with a plan unless the buys sum to
/// zero.
pub open spec fn spec_open(intents: Seq<TradeIntentView>, cash: CashView) -> BatchView {
    BatchView {
        intents,
        plan: if spec_buy_total(intents) == 0 {
            None
        } else {
            Some(AllocationPlanView { cash, buy_total: spec_buy_total(intents) })
        },
        cursor: 0,
        phase: Phase::Ready,
        summary: Summary { placed: 0, rejected: 0, skipped: 0 },
    }
}

/// What a driver reports that works from a snapshot of the account: the
/// price the snapshot holds for the symbol, the snapshot's positions, and
/// for an order the receipt that `accepts` decides.
pub open spec fn spec_snapshot_reply(
    directive: DirectiveView,
    holdings: Seq<EntryView>,
    quotes: Seq<EntryView>,
    accepts: spec_fn(OrderRequestView) -> bool,
) -> EventView {
    match directive {
        DirectiveView::FetchPrice(ticker) => EventView::Price(spec_lookup(quotes, ticker)),
        DirectiveView::FetchHoldings => EventView::Holdings(holdings),
        DirectiveView::Submit(order) => if accepts(order) {
            EventView::Accepted
        } else {
            EventView::Rejected
        },
        _ => EventView::Resume,
    }
}

/// A bound on the steps a batch still takes.
pub open spec fn spec_steps_left(batch: BatchView) -> int {
    4 * (batch.intents.len() - batch.cursor) + match batch.phase {
        Phase::Ready => 3int,
        Phase::AwaitingPrice => 2,
        Phase::AwaitingHoldings => 2,
        Phase::AwaitingReceipt => 1,
        Phase::Finished => 0,
    }
}

/// The orders a batch hands out from `event` on, when its driver works from
/// a snapshot of the account: step after step until the batch is finished.
pub open spec fn spec_run(
    batch: BatchView,
    event: EventView,
    holdings: Seq<EntryView>,
    quotes: Seq<EntryView>,
    accepts: spec_fn(OrderRequestView) -> bool,
) -> Seq<OrderRequestView>
    decreases spec_steps_left(batch),
    when batch.consistent()
    via spec_run_ends
{
    let next = spec_step(batch, event).0;
    let directive = spec_step(batch, event).1;
    let reply = spec_snapshot_reply(directive, holdings, quotes, accepts);
    match directive {
        DirectiveView::Finished(_) => Seq::empty(),
        DirectiveView::Unexpected => Seq::empty(),
        DirectiveView::Submit(order) => seq![order] + spec_run(
            next,
            reply,
            holdings,
            quotes,
            accepts,
        ),
        _ => spec_run(next, reply, holdings, quotes, accepts),
    }
}

#[via_fn]
proof fn spec_run_ends(
    batch: BatchView,
    event: EventView,
    holdings: Seq<EntryView>,
    quotes: Seq<EntryView>,
    accepts: spec_fn(OrderRequestView) -> bool,
) {
    lemma_step_keeps_consistency(batch, event);
}

/// A step keeps a batch consistent, never moves its cursor back, and hands
/// out only orders for at least one share.
pub proof fn lemma_step_keeps_consistency(batch: BatchView, event: EventView)
    requires
        batch.consistent(),
    ensures
        spec_step(batch, event).0.consistent(),
        spec_step(batch, event).0.intents == batch.intents,
        spec_step(batch, event).0.plan == batch.plan,
        spec_step(batch, event).0.cursor >= batch.cursor,
        spec_step(batch, event).1 matches DirectiveView::Submit(order) ==> order.quantity >= 1,
{
}

/// A batch whose buys sum to zero ends at its first step, with nothing
/// placed, rejected or skipped: an empty result, and no error.
pub proof fn lemma_batch_without_buys_ends_at_once(batch: BatchView, event: EventView)
    requires
        batch.consistent(),
        batch.plan is None,
    ensures
        spec_step(batch, event).1 == DirectiveView::Finished(
            Summary { placed: 0, rejected: 0, skipped: 0 },
        ),
        spec_step(batch, event).0.phase == Phase::Finished,
{
}

proof fn lemma_run_from_ready(
    batch: BatchView,
    event: EventView,
    holdings: Seq<EntryView>,
    quotes: Seq<EntryView>,
    accepts: spec_fn(OrderRequestView) -> bool,
)
    requires
        batch.consistent(),
        batch.phase == Phase::Ready,
        batch.plan is Some,
    ensures
        spec_run(batch, event, holdings, quotes, accepts) == spec_resolve_all(
            batch.intents.skip(batch.cursor),
            batch.plan->0,
            holdings,
            quotes,
        ),
    decreases batch.intents.len() - batch.cursor,
{
    reveal_with_fuel(spec_run, 4);
    let plan = batch.plan->0;
    let left = batch.intents.skip(batch.cursor);
    if batch.cursor >= batch.intents.len() {
        assert(left.len() == 0);
    } else {
        let intent = batch.current();
        let rest = batch.intents.skip(batch.cursor + 1);
        let held = spec_lookup(holdings, intent.ticker);
        let price = spec_lookup(quotes, intent.ticker);
        let order = spec_resolve(intent, plan, held, price);
        assert(left == seq![intent] + rest);
        lemma_resolve_all_distributes(seq![intent], rest, plan, holdings, quotes);
        assert(seq![intent].last() == intent);
        assert(spec_resolve_all(seq![intent].drop_last(), plan, holdings, quotes) == Seq::<
            OrderRequestView,
        >::empty());
        if order is Some {
            assert(Seq::<OrderRequestView>::empty().push(order->0) == seq![order->0]);
        }
        assert(spec_resolve_all(seq![intent], plan, holdings, quotes) == match order {
            Some(o) => seq![o],
            None => Seq::empty(),
        });
        let skipped = batch.after_skip();
        let asked = match intent.action {
            Action::Buy => batch.in_phase(Phase::AwaitingPrice),
            _ => batch.in_phase(Phase::AwaitingHoldings),
        };
        let reply = match intent.action {
            Action::Buy => EventView::Price(price),
            _ => EventView::Holdings(holdings),
        };
        if intent.action == Action::Unknown {
            lemma_step_keeps_consistency(batch, event);
            lemma_run_from_ready(skipped, EventView::Resume, holdings, quotes, accepts);
            assert(spec_resolve_all(rest, plan, holdings, quotes) == Seq::<
                OrderRequestView,
            >::empty() + spec_resolve_all(rest, plan, holdings, quotes));
        } else {
            lemma_step_keeps_consistency(batch, event);
            assert(spec_step(batch, event) == (asked, spec_dispatch(batch).1));
            assert(spec_run(batch, event, holdings, quotes, accepts) == spec_run(
                asked,
                reply,
                holdings,
                quotes,
                accepts,
            ));
            lemma_step_keeps_consistency(asked, reply);
            match order {
                Some(o) => {
                    let handed = asked.in_phase(Phase::AwaitingReceipt);
                    let receipt = if accepts(o) {
                        EventView::Accepted
                    } else {
                        EventView::Rejected
                    };
                    let counted = if accepts(o) {
                        handed.after_accept()
                    } else {
                        handed.after_reject()
                    };
                    assert(spec_step(asked, reply) == (handed, DirectiveView::Submit(o)));
                    assert(spec_run(asked, reply, holdings, quotes, accepts) == seq![o]
                        + spec_run(handed, receipt, holdings, quotes, accepts));
                    lemma_step_keeps_consistency(handed, receipt);
                    assert(counted.consistent());
                    assert(spec_step(handed, receipt) == spec_step(counted, EventView::Resume));
                    assert(spec_run(handed, receipt, holdings, quotes, accepts) == spec_run(
                        counted,
                        EventView::Resume,
                        holdings,
                        quotes,
                        accepts,
                    ));
                    lemma_run_from_ready(counted, EventView::Resume, holdings, quotes, accepts);
                },
                None => {
                    assert(spec_step(asked, reply).0 == asked.after_skip());
                    assert(asked.after_skip() == skipped);
                    assert(spec_run(asked, reply, holdings, quotes, accepts) == spec_run(
                        skipped,
                        EventView::Resume,
                        holdings,
                        quotes,
                        accepts,
                    ));
                    lemma_run_from_ready(skipped, EventView::Resume, holdings, quotes, accepts);
                    assert(spec_resolve_all(rest, plan, holdings, quotes) == Seq::<
                        OrderRequestView,
                    >::empty() + spec_resolve_all(rest, plan, holdings, quotes));
                },
            }
        }
    }
}

/// A run whose driver works from a snapshot of the account hands out, from
/// the first step to the last, exactly the orders that order synthesis
/// computes from that snapshot, whichever of them the brokerage accepts.
pub proof fn lemma_snapshot_run_matches_synthesis(
    intents: Seq<TradeIntentView>,
    cash: CashView,
    holdings: Seq<EntryView>,
    quotes: Seq<EntryView>,
    accepts: spec_fn(OrderRequestView) -> bool,
    event: EventView,
)
    requires
        intents.len() <= usize::MAX,
        forall|i: int| 0 <= i < intents.len() ==> (#[trigger] intents[i]).valid(),
    ensures
        spec_open(intents, cash).consistent(),
        spec_run(spec_open(intents, cash), event, holdings, quotes, accepts) == spec_orders(
            intents,
            cash,
            holdings,
            quotes,
        ),
{
    let batch = spec_open(intents, cash);
    if intents.len() > 0 {
        lemma_buy_within_total(intents, 0);
    }
    assert(batch.consistent());
    if batch.plan is Some {
        lemma_run_from_ready(batch, event, holdings, quotes, accepts);
        assert(intents.skip(0) == intents);
    } else {
        lemma_batch_without_buys_ends_at_once(batch, event);
    }
}

/// A run over a batch of intents.
#[derive(Debug)]
pub struct Batch {
    intents: Vec<TradeIntent>,
    plan: Option<AllocationPlan>,
    cursor: usize,
    phase: Phase,
    summary: Summary,
}

impl View for Batch {
    type V = BatchView;

    closed spec fn view(&self) -> BatchView {
        BatchView {
            intents: intent_views(self.intents@),
            plan: match self.plan {
                Some(plan) => Some(plan@),
                None => None,
            },
            cursor: self.cursor as int,
            phase: self.phase,
            summary: self.summary,
        }
    }
}

impl Batch {
    #[verifier::type_invariant]
    spec fn well_formed(self) -> bool {
        self@.consistent()
    }

    /// Opens a run over `intents` on an account holding `cash`.
    pub fn open(intents: Vec<TradeIntent>, cash: Cash) -> (batch: Batch)
        ensures
            batch@ == spec_open(intent_views(intents@), cash@),
            batch@.consistent(),
    {
        let plan = AllocationPlan::new(cash, &intents);
        proof {
            let views = intent_views(intents@);
            assert(views.len() == intents@.len());
            assert forall|i: int| 0 <= i < views.len() implies (#[trigger] views[i]).valid() by {
                assert(views[i] == intents@[i]@);
            }
            if views.len() > 0 {
                lemma_buy_within_total(views, 0);
            }
            assert(intents.len() == views.len());
        }
        Batch {
            intents,
            plan,
            cursor: 0,
            phase: Phase::Ready,
            summary: Summary { placed: 0, rejected: 0, skipped: 0 },
        }
    }

    /// How the batch has fared so far.
    pub fn summary(&self) -> (summary: Summary)
        ensures
            summary == self@.summary,
            self@.consistent(),
    {
        proof {
            use_type_invariant(self);
        }
        self.summary
    }

    /// Where the batch stands.
    pub fn phase(&self) -> (phase: Phase)
        ensures
            phase == self@.phase,
    {
        self.phase
    }

    /// Whether every intent was dealt with.
    pub fn is_finished(&self) -> (done: bool)
        ensures
            done == (self@.phase == Phase::Finished),
    {
        self.phase == Phase::Finished
    }

    /// The plan the batch sizes its buys by; none where the buys sum to zero.
    pub fn plan(&self) -> (plan: Option<AllocationPlan>)
        ensures
            self@.plan == match plan {
                Some(p) => Some(p@),
                None => None,
            },
    {
        self.plan
    }

    fn dispatch(self) -> (next: (Batch, Directive))
        requires
            self@.phase == Phase::Ready,
        ensures
            (next.0@, next.1@) == spec_dispatch(self@),
    {
        proof {
            use_type_invariant(&self);
        }
        let Batch { intents, plan, cursor, phase, summary } = self;
        if plan.is_none() || cursor >= intents.len() {
            (
                Batch { intents, plan, cursor, phase: Phase::Finished, summary },
                Directive::Finished(summary),
            )
        } else {
            let action = intents[cursor].action();
            let ticker = intents[cursor].ticker().to_owned();
            assert(intent_views(intents@)[cursor as int] == intents@[cursor as int]@);
            match action {
                Action::Buy => (
                    Batch { intents, plan, cursor, phase: Phase::AwaitingPrice, summary },
                    Directive::FetchPrice(ticker),
                ),
                Action::SellFull | Action::SellPartial => (
                    Batch { intents, plan, cursor, phase: Phase::AwaitingHoldings, summary },
                    Directive::FetchHoldings,
                ),
                Action::Unknown => (
                    Batch {
                        intents,
                        plan,
                        cursor: cursor + 1,
                        phase: Phase::Ready,
                        summary: Summary { skipped: summary.skipped + 1, ..summary },
                    },
                    Directive::Skipped(ticker, SkipReason::UnknownAction),
                ),
            }
        }
    }

    fn issue(self, order: Option<OrderRequest>, reason: SkipReason) -> (next: (Batch, Directive))
        requires
            self@.cursor < self@.intents.len(),
            self@.phase == Phase::AwaitingPrice || self@.phase == Phase::AwaitingHoldings,
        ensures
            (next.0@, next.1@) == spec_issue(self@, optional_order_view(order), reason),
    {
        proof {
            use_type_invariant(&self);
        }
        let Batch { intents, plan, cursor, phase, summary } = self;
        assert(intent_views(intents@).len() == intents@.len());
        assert(intent_views(intents@)[cursor as int] == intents@[cursor as int]@);
        match order {
            Some(o) => (
                Batch { intents, plan, cursor, phase: Phase::AwaitingReceipt, summary },
                Directive::Submit(o),
            ),
            None => {
                let ticker = intents[cursor].ticker().to_owned();
                (
                    Batch {
                        intents,
                        plan,
                        cursor: cursor + 1,
                        phase: Phase::Ready,
                        summary: Summary { skipped: summary.skipped + 1, ..summary },
                    },
                    Directive::Skipped(ticker, reason),
                )
            },
        }
    }

    /// Takes one step: consumes the driver's report and says what to do
    /// next.
    pub fn step(self, event: Event) -> (next: (Batch, Directive))
        ensures
            (next.0@, next.1@) == spec_step(self@, event@),
            next.0@.consistent(),
    {
        proof {
            use_type_invariant(&self);
            lemma_step_keeps_consistency(self@, event@);
        }
        match self.phase {
            Phase::Ready => self.dispatch(),
            Phase::Finished => {
                let summary = self.summary;
                (self, Directive::Finished(summary))
            },
            Phase::AwaitingPrice => match event {
                Event::Price(price) => {
                    proof {
                        lemma_buy_within_total(self@.intents, self@.cursor);
                    }
                    assert(intent_views(self.intents@)[self.cursor as int]
                        == self.intents@[self.cursor as int]@);
                    let order = match &self.plan {
                        Some(plan) => resolve(&self.intents[self.cursor], plan, 0, price),
                        None => None,
                    };
                    self.issue(order, SkipReason::NoPrice)
                },
                _ => (self, Directive::Unexpected),
            },
            Phase::AwaitingHoldings => match event {
                Event::Holdings(holdings) => {
                    assert(intent_views(self.intents@)[self.cursor as int]
                        == self.intents@[self.cursor as int]@);
                    let intent = &self.intents[self.cursor];
                    let held = held_quantity(&holdings, intent.ticker());
                    let order = match &self.plan {
                        Some(plan) => resolve(intent, plan, held, 0),
                        None => None,
                    };
                    self.issue(order, SkipReason::NothingHeld)
                },
                _ => (self, Directive::Unexpected),
            },
            Phase::AwaitingReceipt => match event {
                Event::Accepted => {
                    let Batch { intents, plan, cursor, phase, summary } = self;
                    assert(intent_views(intents@).len() == intents@.len());
                    let counted = Batch {
                        intents,
                        plan,
                        cursor: cursor + 1,
                        phase: Phase::Ready,
                        summary: Summary { placed: summary.placed + 1, ..summary },
                    };
                    counted.dispatch()
                },
                Event::Rejected => {
                    let Batch { intents, plan, cursor, phase, summary } = self;
                    assert(intent_views(intents@).len() == intents@.len());
                    let counted = Batch {
                        intents,
                        plan,
                        cursor: cursor + 1,
                        phase: Phase::Ready,
                        summary: Summary { rejected: summary.rejected + 1, ..summary },
                    };
                    counted.dispatch()
                },
                _ => (self, Directive::Unexpected),
            },
        }
    }
}

} // verus!
