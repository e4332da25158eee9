//! Disclosure ingestion: the rules that turn the records of a chamber's
//! report into trade intents. A record that cannot be used is passed over;
//! it never stops the batch.

use crate::extract::{
    extract_amount, extract_ticker, optional_text, spec_extract_amount, spec_extract_ticker,
};
use crate::intent::{classify_action, intent_views, spec_classify, TradeIntent, TradeIntentView};
use crate::text::{contains_text, same_text, spec_contains};
use vstd::prelude::*;

verus! {

/// The legislative body whose filings are read.
#[derive(Clone, Copy, Debug, PartialEq, Eq, Structural)]
pub enum Chamber {
    House,
    Senate,
}

/// The chamber a selector names: `house` or `senate`, and nothing else.
pub open spec fn spec_chamber(selector: Seq<char>) -> Option<Chamber> {
    if selector == "house"@ {
        Some(Chamber::House)
    } else if selector == "senate"@ {
        Some(Chamber::Senate)
    } else {
        None
    }
}

/// Reads a chamber selector.
pub fn parse_chamber(selector: &str) -> (chamber: Option<Chamber>)
    ensures
        chamber == spec_chamber(selector@),
{
    if same_text(selector, "house") {
        Some(Chamber::House)
    } else if same_text(selector, "senate") {
        Some(Chamber::Senate)
    } else {
        None
    }
}

impl Chamber {
    /// The selector that names this chamber.
    pub open spec fn spec_name(self) -> Seq<char> {
        match self {
            Chamber::House => "house"@,
            Chamber::Senate => "senate"@,
        }
    }

    /// The selector that names this chamber.
    pub fn name(&self) -> (name: &'static str)
        ensures
            name@ == self.spec_name(),
    {
        match self {
            Chamber::House => "house",
            Chamber::Senate => "senate",
        }
    }
}

/// One record of a report as a mathematical value.
pub struct TransactionView {
    pub description: Option<Seq<char>>,
    pub ticker: Option<Seq<char>>,
    pub amount: Option<Seq<char>>,
    pub label: Option<Seq<char>>,
    pub asset_type: Option<Seq<char>>,
}

/// One record of a report, as filed: each field holds the text found for it,
/// or nothing where the record has no such text.
#[derive(Clone, Debug, PartialEq, Eq)]
pub struct Transaction {
    /// What was traded, in words.
    pub description: Option<String>,
    /// The ticker symbol, bare or embedded in markup.
    pub ticker: Option<String>,
    /// The filed amount range.
    pub amount: Option<String>,
    /// The chamber's label for the kind of transaction.
    pub label: Option<String>,
    /// The class of asset.
    pub asset_type: Option<String>,
}

impl View for Transaction {
    type V = TransactionView;

    open spec fn view(&self) -> TransactionView {
        TransactionView {
            description: optional_text(self.description),
            ticker: optional_text(self.ticker),
            amount: optional_text(self.amount),
            label: optional_text(self.label),
            asset_type: optional_text(self.asset_type),
        }
    }
}

/// The views of a sequence of records, in order.
pub open spec fn transaction_views(records: Seq<Transaction>) -> Seq<TransactionView> {
    records.map_values(|record: Transaction| record@)
}

/// A description that marks a filing as something other than stock.
pub open spec fn spec_excluded(description: Seq<char>) -> bool {
    ||| spec_contains(description, "Bond"@)
    ||| spec_contains(description, "Option"@)
    ||| spec_contains(description, "Note"@)
}

/// Whether a description marks a filing as a bond, an option or a note.
pub fn is_excluded(description: &str) -> (excluded: bool)
    ensures
        excluded == spec_excluded(description@),
{
    contains_text(description, "Bond") || contains_text(description, "Option") || contains_text(
        description,
        "Note",
    )
}

/// The intent made of a label, a ticker and an amount, where the ticker is
/// not empty and the amount was found.
pub open spec fn spec_assemble(label: Seq<char>, ticker: Seq<char>, amount: Option<int>) -> Option<
    TradeIntentView,
> {
    match amount {
        Some(a) => if ticker.len() > 0 && 0 <= a <= i64::MAX {
            Some(
                TradeIntentView { action: spec_classify(label), ticker, notional_amount: a },
            )
        } else {
            None
        },
        None => None,
    }
}

/// The view of an intent that may be absent.
pub open spec fn optional_intent_view(intent: Option<TradeIntent>) -> Option<TradeIntentView> {
    match intent {
        Some(i) => Some(i@),
        None => None,
    }
}

/// Makes the intent of a record whose fields were read.
pub fn assemble(label: &str, ticker: &str, amount: Option<i64>) -> (intent: Option<TradeIntent>)
    ensures
        optional_intent_view(intent) == spec_assemble(
            label@,
            ticker@,
            match amount {
                Some(a) => Some(a as int),
                None => None,
            },
        ),
{
    match amount {
        Some(a) => TradeIntent::new(classify_action(label), ticker, a),
        None => None,
    }
}

/// The intent a house record stands for. The record must give description,
/// ticker, amount and label; it is passed over where the description marks
/// a bond, an option or a note, where the ticker is the placeholder `--` or
/// empty, and where no amount can be read.
pub open spec fn spec_house_intent(record: TransactionView) -> Option<TradeIntentView> {
    match (record.description, record.ticker, record.amount, record.label) {
        (Some(description), Some(ticker), Some(amount), Some(label)) => if spec_excluded(
            description,
        ) || ticker == "--"@ {
            None
        } else {
            spec_assemble(label, ticker, spec_extract_amount(amount))
        },
        _ => None,
    }
}

/// The intent a senate record stands for. The record must give asset type,
/// ticker, amount and label; it is passed over unless the asset type is
/// `Stock`, where the ticker is the placeholder `--`, where the ticker field
/// holds no symbol, and where no amount can be read.
pub open spec fn spec_senate_intent(record: TransactionView) -> Option<TradeIntentView> {
    match (record.asset_type, record.ticker, record.amount, record.label) {
        (Some(asset_type), Some(ticker), Some(amount), Some(label)) => if asset_type != "Stock"@
            || ticker == "--"@ {
            None
        } else {
            match spec_extract_ticker(ticker) {
                Some(symbol) => spec_assemble(label, symbol, spec_extract_amount(amount)),
                None => None,
            }
        },
        _ => None,
    }
}

/// The intent a record of `chamber` stands for, if any.
pub open spec fn spec_intent(chamber: Chamber, record: TransactionView) -> Option<TradeIntentView> {
    match chamber {
        Chamber::House => spec_house_intent(record),
        Chamber::Senate => spec_senate_intent(record),
    }
}

/// The intents of a chamber's records: what each record stands for, in the
/// records' order, the unusable ones left out.
pub open spec fn spec_intents(chamber: Chamber, records: Seq<TransactionView>) -> Seq<
    TradeIntentView,
> {
    records.filter_map(|record: TransactionView| spec_intent(chamber, record))
}

/// A record lacks a field that its chamber's rules need.
pub open spec fn lacks_required_field(chamber: Chamber, record: TransactionView) -> bool {
    ||| record.ticker is None
    ||| record.amount is None
    ||| record.label is None
    ||| match chamber {
        Chamber::House => record.description is None,
        Chamber::Senate => record.asset_type is None,
    }
}

/// A record that lacks a required field stands for no intent.
pub proof fn lemma_incomplete_record_is_passed_over(chamber: Chamber, record: TransactionView)
    requires
        lacks_required_field(chamber, record),
    ensures
        spec_intent(chamber, record) is None,
{
}

/// Every record is judged on its own: the intents of two runs of records,
/// one after the other, are the intents of the first followed by those of
/// the second.
pub proof fn lemma_records_are_independent(
    chamber: Chamber,
    first: Seq<TransactionView>,
    second: Seq<TransactionView>,
)
    ensures
        spec_intents(chamber, first + second) == spec_intents(chamber, first) + spec_intents(
            chamber,
            second,
        ),
    decreases second.len(),
{
    let f = |record: TransactionView| spec_intent(chamber, record);
    if second.len() == 0 {
        assert(first + second == first);
        assert(spec_intents(chamber, second) == Seq::<TradeIntentView>::empty());
    } else {
        let shorter = second.drop_last();
        lemma_records_are_independent(chamber, first, shorter);
        assert((first + second).drop_last() == first + shorter);
        assert((first + second).last() == second.last());
    }
}

/// A record that lacks a required field does not stop the batch: the
/// records before it and after it yield exactly the intents they would
/// yield without it.
pub proof fn lemma_incomplete_record_does_not_abort(
    chamber: Chamber,
    before: Seq<TransactionView>,
    record: TransactionView,
    after: Seq<TransactionView>,
)
    requires
        lacks_required_field(chamber, record),
    ensures
        spec_intents(chamber, before.push(record) + after) == spec_intents(chamber, before)
            + spec_intents(chamber, after),
{
    lemma_records_are_independent(chamber, before.push(record), after);
    assert(before.push(record).drop_last() == before);
    assert(before.push(record).last() == record);
}

/// Every intent that ingestion yields names a symbol and carries an amount
/// that is not negative.
pub proof fn lemma_intents_are_valid(chamber: Chamber, records: Seq<TransactionView>, i: int)
    requires
        0 <= i < spec_intents(chamber, records).len(),
    ensures
        spec_intents(chamber, records)[i].valid(),
    decreases records.len(),
{
    if records.len() > 0 {
        let earlier = spec_intents(chamber, records.drop_last());
        if i < earlier.len() {
            lemma_intents_are_valid(chamber, records.drop_last(), i);
        }
    }
}

/// The intent a house record stands for, if any.
pub fn house_intent(record: &Transaction) -> (intent: Option<TradeIntent>)
    ensures
        optional_intent_view(intent) == spec_house_intent(record@),
{
    let description = match &record.description {
        Some(d) => d,
        None => {
            return None;
        },
    };
    let ticker = match &record.ticker {
        Some(t) => t,
        None => {
            return None;
        },
    };
    let amount = match &record.amount {
        Some(a) => a,
        None => {
            return None;
        },
    };
    let label = match &record.label {
        Some(l) => l,
        None => {
            return None;
        },
    };
    if is_excluded(description.as_str()) || same_text(ticker.as_str(), "--") {
        return None;
    }
    assemble(label.as_str(), ticker.as_str(), extract_amount(amount.as_str()))
}

/// The intent a senate record stands for, if any.
pub fn senate_intent(record: &Transaction) -> (intent: Option<TradeIntent>)
    ensures
        optional_intent_view(intent) == spec_senate_intent(record@),
{
    let asset_type = match &record.asset_type {
        Some(a) => a,
        None => {
            return None;
        },
    };
    let ticker = match &record.ticker {
        Some(t) => t,
        None => {
            return None;
        },
    };
    let amount = match &record.amount {
        Some(a) => a,
        None => {
            return None;
        },
    };
    let label = match &record.label {
        Some(l) => l,
        None => {
            return None;
        },
    };
    if !same_text(asset_type.as_str(), "Stock") || same_text(ticker.as_str(), "--") {
        return None;
    }
    match extract_ticker(ticker.as_str()) {
        Some(symbol) => assemble(label.as_str(), symbol.as_str(), extract_amount(amount.as_str())),
        None => None,
    }
}

/// The intent a record of `chamber` stands for, if any.
pub fn normalize(chamber: Chamber, record: &Transaction) -> (intent: Option<TradeIntent>)
    ensures
        optional_intent_view(intent) == spec_intent(chamber, record@),
{
    match chamber {
        Chamber::House => house_intent(record),
        Chamber::Senate => senate_intent(record),
    }
}

/// The intents of a chamber's records, in the records' order. Records that
/// cannot be used are left out; the others are all there.
pub fn collect_intents(chamber: Chamber, records: &Vec<Transaction>) -> (intents: Vec<TradeIntent>)
    ensures
        intent_views(intents@) == spec_intents(chamber, transaction_views(records@)),
        intents@.len() <= records@.len(),
{
    let ghost all = transaction_views(records@);
    let mut intents: Vec<TradeIntent> = Vec::new();
    let mut i: usize = 0;
    assert(intent_views(intents@) == spec_intents(chamber, all.take(0)));
    while i < records.len()
        invariant
            i <= records.len(),
            all == transaction_views(records@),
            intents@.len() <= i,
            intent_views(intents@) == spec_intents(chamber, all.take(i as int)),
        decreases records.len() - i,
    {
        proof {
            assert(all.take(i + 1).drop_last() == all.take(i as int));
            assert(all.take(i + 1).last() == records@[i as int]@);
        }
        let ghost before = intent_views(intents@);
        match normalize(chamber, &records[i]) {
            Some(intent) => {
                intents.push(intent);
                assert(intent_views(intents@) == before + seq![intent@]);
            },
            None => {},
        }
        i += 1;
    }
    assert(all.take(records.len() as int) == all);
    intents
}

} // verus!
