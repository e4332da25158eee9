//! Reading a chamber's report: from the response of the feed to the records
//! it holds, and on to the intents of the day.

use crate::extract::optional_text;
use crate::intent::{intent_views, TradeIntent, TradeIntentView};
use crate::record::{
    collect_intents, parse_chamber, spec_chamber, spec_intents, transaction_views, Chamber,
    Transaction, TransactionView,
};
use vstd::prelude::*;

verus! {

/// A JSON value of `serde_json`. Its contents are reached only through the
/// four names below.
#[verifier::external_type_specification]
#[verifier::external_body]
pub struct ExValue(serde_json::Value);

/// The error of `serde_json`.
#[verifier::external_type_specification]
#[verifier::external_body]
pub struct ExJsonError(serde_json::Error);

/// The value that a JSON text spells; none where the text is not JSON.
pub uninterp spec fn json_document(text: Seq<char>) -> Option<serde_json::Value>;

/// The elements of a JSON array, in order; none where the value is no array.
pub uninterp spec fn json_elements(value: serde_json::Value) -> Option<Seq<serde_json::Value>>;

/// The member that a JSON object holds under `key`; none where the value is
/// no object or has no such member.
pub uninterp spec fn json_member(value: serde_json::Value, key: Seq<char>) -> Option<
    serde_json::Value,
>;

/// The text of a JSON string; none where the value is no string.
pub uninterp spec fn json_string(value: serde_json::Value) -> Option<Seq<char>>;

/// `serde_json::from_str` at the type `Value`: the value that `text` spells,
/// or the parser's error.
#[verifier::external_body]
fn parse_document(text: &str) -> (parsed: Result<serde_json::Value, serde_json::Error>)
    ensures
        match parsed {
            Ok(value) => json_document(text@) == Some(value),
            Err(_) => json_document(text@) is None,
        },
{
    serde_json::from_str::<serde_json::Value>(text)
}

/// `Value::as_array`: the vector behind an array, nothing for any other
/// value.
#[verifier::external_body]
fn elements_of(value: &serde_json::Value) -> (items: Option<&Vec<serde_json::Value>>)
    ensures
        match items {
            Some(list) => json_elements(*value) == Some(list@),
            None => json_elements(*value) is None,
        },
{
    value.as_array()
}

/// `Value::get` with a string index: the member of an object under `key`,
/// nothing where the value is no object or has no such member.
#[verifier::external_body]
fn member_of<'a>(value: &'a serde_json::Value, key: &str) -> (found: Option<&'a serde_json::Value>)
    ensures
        match found {
            Some(member) => json_member(*value, key@) == Some(*member),
            None => json_member(*value, key@) is None,
        },
{
    value.get(key)
}

/// `Value::as_str`: the text behind a string, nothing for any other value.
#[verifier::external_body]
fn string_of<'a>(value: &'a serde_json::Value) -> (text: Option<&'a str>)
    ensures
        match text {
            Some(t) => json_string(*value) == Some(t@),
            None => json_string(*value) is None,
        },
{
    value.as_str()
}

/// The text that a record holds under `key`, if it holds a string there.
pub open spec fn spec_text_field(record: serde_json::Value, key: Seq<char>) -> Option<Seq<char>> {
    match json_member(record, key) {
        Some(member) => json_string(member),
        None => None,
    }
}

/// The name under which a chamber's records give the kind of transaction.
pub open spec fn spec_label_key(chamber: Chamber) -> Seq<char> {
    match chamber {
        Chamber::House => "transaction_type"@,
        Chamber::Senate => "type"@,
    }
}

/// The record that a JSON value of a chamber's report stands for.
pub open spec fn spec_transaction(chamber: Chamber, record: serde_json::Value) -> TransactionView {
    TransactionView {
        description: spec_text_field(record, "description"@),
        ticker: spec_text_field(record, "ticker"@),
        amount: spec_text_field(record, "amount"@),
        label: spec_text_field(record, spec_label_key(chamber)),
        asset_type: spec_text_field(record, "asset_type"@),
    }
}

/// The records of one line of a report: those of its `transactions` array,
/// in order; none where the line has no such array.
pub open spec fn spec_line(chamber: Chamber, line: serde_json::Value) -> Seq<TransactionView> {
    match json_member(line, "transactions"@) {
        Some(list) => match json_elements(list) {
            Some(items) => items.map_values(
                |record: serde_json::Value| spec_transaction(chamber, record),
            ),
            None => Seq::empty(),
        },
        None => Seq::empty(),
    }
}

/// The records of the lines of a report, line after line.
pub open spec fn spec_lines(chamber: Chamber, lines: Seq<serde_json::Value>) -> Seq<
    TransactionView,
>
    decreases lines.len(),
{
    if lines.len() == 0 {
        Seq::empty()
    } else {
        spec_lines(chamber, lines.drop_last()) + spec_line(chamber, lines.last())
    }
}

/// The records of a report given as JSON text; none where the text is not a
/// JSON array.
pub open spec fn spec_records(chamber: Chamber, text: Seq<char>) -> Option<Seq<TransactionView>> {
    match json_document(text) {
        Some(document) => match json_elements(document) {
            Some(lines) => Some(spec_lines(chamber, lines)),
            None => None,
        },
        None => None,
    }
}

/// Why a day's report yields no intents.
#[derive(Clone, Copy, Debug, PartialEq, Eq, Structural)]
pub enum FeedError {
    /// The chamber selector names no chamber.
    InvalidChamber,
    /// The feed did not answer with a report for the day.
    Unavailable,
    /// The feed's answer is not a report.
    Malformed,
}

fn text_field(record: &serde_json::Value, key: &str) -> (text: Option<String>)
    ensures
        optional_text(text) == spec_text_field(*record, key@),
{
    match member_of(record, key) {
        Some(member) => match string_of(member) {
            Some(t) => Some(t.to_owned()),
            None => None,
        },
        None => None,
    }
}

/// Reads one record of a chamber's report.
pub fn read_transaction(chamber: Chamber, record: &serde_json::Value) -> (transaction: Transaction)
    ensures
        transaction@ == spec_transaction(chamber, *record),
{
    let label_key = match chamber {
        Chamber::House => "transaction_type",
        Chamber::Senate => "type",
    };
    Transaction {
        description: text_field(record, "description"),
        ticker: text_field(record, "ticker"),
        amount: text_field(record, "amount"),
        label: text_field(record, label_key),
        asset_type: text_field(record, "asset_type"),
    }
}

fn read_line(chamber: Chamber, line: &serde_json::Value, records: &mut Vec<Transaction>)
    ensures
        transaction_views(final(records)@) == transaction_views(old(records)@) + spec_line(
            chamber,
            *line,
        ),
{
    let ghost start = transaction_views(records@);
    let items = match member_of(line, "transactions") {
        Some(list) => match elements_of(list) {
            Some(items) => items,
            None => {
                assert(start + Seq::<TransactionView>::empty() == start);
                return ;
            },
        },
        None => {
            assert(start + Seq::<TransactionView>::empty() == start);
            return ;
        },
    };
    let ghost whole = spec_line(chamber, *line);
    let mut i: usize = 0;
    assert(start + whole.take(0) == start);
    while i < items.len()
        invariant
            i <= items.len(),
            whole == items@.map_values(
                |record: serde_json::Value| spec_transaction(chamber, record),
            ),
            transaction_views(records@) == start + whole.take(i as int),
        decreases items.len() - i,
    {
        let transaction = read_transaction(chamber, &items[i]);
        let ghost before = transaction_views(records@);
        let ghost view = transaction@;
        records.push(transaction);
        proof {
            assert(transaction_views(records@) == before.push(view));
            assert(whole.take(i + 1) == whole.take(i as int).push(whole[i as int]));
            assert(start + whole.take(i + 1) == (start + whole.take(i as int)).push(
                whole[i as int],
            ));
        }
        i += 1;
    }
    assert(whole.take(items.len() as int) == whole);
}

/// Reads the records of a chamber's report from its JSON text: the records
/// of every line, in the report's order. The text must be a JSON array; a
/// line without a `transactions` array adds no record.
pub fn read_records(chamber: Chamber, text: &str) -> (records: Result<Vec<Transaction>, FeedError>)
    ensures
        match records {
            Ok(list) => spec_records(chamber, text@) == Some(transaction_views(list@)),
            Err(e) => e == FeedError::Malformed && spec_records(chamber, text@) is None,
        },
{
    let document = match parse_document(text) {
        Ok(document) => document,
        Err(_) => {
            return Err(FeedError::Malformed);
        },
    };
    let lines = match elements_of(&document) {
        Some(lines) => lines,
        None => {
            return Err(FeedError::Malformed);
        },
    };
    let mut records: Vec<Transaction> = Vec::new();
    let mut i: usize = 0;
    assert(transaction_views(records@) == spec_lines(chamber, lines@.take(0)));
    while i < lines.len()
        invariant
            i <= lines.len(),
            transaction_views(records@) == spec_lines(chamber, lines@.take(i as int)),
        decreases lines.len() - i,
    {
        proof {
            assert(lines@.take(i + 1).drop_last() == lines@.take(i as int));
            assert(lines@.take(i + 1).last() == lines@[i as int]);
        }
        read_line(chamber, &lines[i], &mut records);
        i += 1;
    }
    assert(lines@.take(lines.len() as int) == lines@);
    Ok(records)
}

/// The intents that the feed's response stands for: an error where the
/// selector names no chamber, where the status is not 200, or where the body
/// is not a report; else the intents of the report's records.
pub open spec fn spec_ingest(selector: Seq<char>, status: int, body: Seq<char>) -> Result<
    Seq<TradeIntentView>,
    FeedError,
> {
    match spec_chamber(selector) {
        None => Err(FeedError::InvalidChamber),
        Some(chamber) => if status != 200 {
            Err(FeedError::Unavailable)
        } else {
            match spec_records(chamber, body) {
                Some(records) => Ok(spec_intents(chamber, records)),
                None => Err(FeedError::Malformed),
            }
        },
    }
}

/// The intents of a day's report, in the report's order.
pub fn read_report(chamber: Chamber, body: &str) -> (intents: Result<Vec<TradeIntent>, FeedError>)
    ensures
        match intents {
            Ok(list) => spec_records(chamber, body@) matches Some(records) && intent_views(list@)
                == spec_intents(chamber, records),
            Err(e) => e == FeedError::Malformed && spec_records(chamber, body@) is None,
        },
{
    match read_records(chamber, body) {
        Ok(records) => Ok(collect_intents(chamber, &records)),
        Err(e) => Err(e),
    }
}

/// Turns the feed's response into the intents of the day. The selector is
/// looked at first, then the status, then the body.
pub fn ingest(selector: &str, status: u16, body: &str) -> (intents: Result<
    Vec<TradeIntent>,
    FeedError,
>)
    ensures
        match intents {
            Ok(list) => spec_ingest(selector@, status as int, body@) == Ok::<
                Seq<TradeIntentView>,
                FeedError,
            >(intent_views(list@)),
            Err(e) => spec_ingest(selector@, status as int, body@) == Err::<
                Seq<TradeIntentView>,
                FeedError,
            >(e),
        },
{
    let chamber = match parse_chamber(selector) {
        Some(chamber) => chamber,
        None => {
            return Err(FeedError::InvalidChamber);
        },
    };
    if status != 200 {
        return Err(FeedError::Unavailable);
    }
    read_report(chamber, body)
}

} // verus!
