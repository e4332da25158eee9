//! The normalized unit of work: what a legislator did, in which symbol, and
//! how large the filing says the trade was.

use crate::text::same_text;
use vstd::prelude::*;

verus! {

/// What a filing says its author did with a position.
#[derive(Clone, Copy, Debug, PartialEq, Eq, Structural)]
pub enum Action {
    Buy,
    SellFull,
    SellPartial,
    Unknown,
}

/// The action a feed's free-text label stands for. Each chamber spells the
/// three known actions in its own way; every other label is `Unknown`.
pub open spec fn spec_classify(label: Seq<char>) -> Action {
    if label == "Purchase"@ || label == "purchase"@ {
        Action::Buy
    } else if label == "Sale (Full)"@ || label == "sale_full"@ {
        Action::SellFull
    } else if label == "Sale (Partial)"@ || label == "sale_partial"@ {
        Action::SellPartial
    } else {
        Action::Unknown
    }
}

/// Normalizes a feed's transaction label.
pub fn classify_action(label: &str) -> (action: Action)
    ensures
        action == spec_classify(label@),
{
    if same_text(label, "Purchase") || same_text(label, "purchase") {
        Action::Buy
    } else if same_text(label, "Sale (Full)") || same_text(label, "sale_full") {
        Action::SellFull
    } else if same_text(label, "Sale (Partial)") || same_text(label, "sale_partial") {
        Action::SellPartial
    } else {
        Action::Unknown
    }
}

/// A trade intent as a mathematical value.
pub struct TradeIntentView {
    pub action: Action,
    pub ticker: Seq<char>,
    pub notional_amount: int,
}

impl TradeIntentView {
    /// A symbol is named and the reported size is not negative.
    pub open spec fn valid(self) -> bool {
        &&& self.ticker.len() > 0
        &&& 0 <= self.notional_amount <= i64::MAX
    }
}

/// One disclosed trade, normalized. Every value of this type names a symbol
/// and carries a notional amount that is not negative.
#[derive(Debug, PartialEq, Eq)]
pub struct TradeIntent {
    action: Action,
    ticker: String,
    notional_amount: i64,
}

impl View for TradeIntent {
    type V = TradeIntentView;

    closed spec fn view(&self) -> TradeIntentView {
        TradeIntentView {
            action: self.action,
            ticker: self.ticker@,
            notional_amount: self.notional_amount as int,
        }
    }
}

impl TradeIntent {
    #[verifier::type_invariant]
    spec fn well_formed(self) -> bool {
        self@.valid()
    }

    /// Builds an intent; there is none for an empty ticker or a negative
    /// amount.
    pub fn new(action: Action, ticker: &str, notional_amount: i64) -> (made: Option<TradeIntent>)
        ensures
            made is Some <==> ticker@.len() > 0 && notional_amount >= 0,
            made matches Some(intent) ==> intent@ == (TradeIntentView {
                action,
                ticker: ticker@,
                notional_amount: notional_amount as int,
            }),
    {
        if ticker.is_empty() || notional_amount < 0 {
            None
        } else {
            Some(TradeIntent { action, ticker: ticker.to_owned(), notional_amount })
        }
    }

    /// What the filing's author did.
    pub fn action(&self) -> (action: Action)
        ensures
            action == self@.action,
            self@.valid(),
    {
        proof {
            use_type_invariant(self);
        }
        self.action
    }

    /// The traded symbol.
    pub fn ticker(&self) -> (ticker: &str)
        ensures
            ticker@ == self@.ticker,
            self@.valid(),
    {
        proof {
            use_type_invariant(self);
        }
        self.ticker.as_str()
    }

    /// The midpoint of the filed range.
    pub fn notional_amount(&self) -> (amount: i64)
        ensures
            amount == self@.notional_amount,
            self@.valid(),
    {
        proof {
            use_type_invariant(self);
        }
        self.notional_amount
    }
}

impl Clone for TradeIntent {
    /// An independent copy of this intent.
    fn clone(&self) -> (copy: TradeIntent)
        ensures
            copy@ == self@,
    {
        proof {
            use_type_invariant(self);
        }
        TradeIntent {
            action: self.action,
            ticker: self.ticker.clone(),
            notional_amount: self.notional_amount,
        }
    }
}

/// The views of a sequence of intents, in order.
pub open spec fn intent_views(intents: Seq<TradeIntent>) -> Seq<TradeIntentView> {
    intents.map_values(|intent: TradeIntent| intent@)
}

} // verus!
