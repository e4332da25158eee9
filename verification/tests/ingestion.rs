use capitol_trades::intent::{classify_action, Action, TradeIntent};
use capitol_trades::record::{
    assemble, collect_intents, house_intent, is_excluded, normalize, parse_chamber, senate_intent,
    Chamber, Transaction,
};
use capitol_trades::report::{ingest, read_records, read_report, read_transaction, FeedError};

fn filed(action: Action, ticker: &str, amount: i64) -> TradeIntent {
    TradeIntent::new(action, ticker, amount).unwrap()
}

fn text(s: &str) -> Option<String> {
    Some(s.to_string())
}

fn house_record(description: &str, ticker: &str, amount: &str, label: &str) -> Transaction {
    Transaction {
        description: text(description),
        ticker: text(ticker),
        amount: text(amount),
        label: text(label),
        asset_type: None,
    }
}

fn senate_record(asset_type: &str, ticker: &str, amount: &str, label: &str) -> Transaction {
    Transaction {
        description: None,
        ticker: text(ticker),
        amount: text(amount),
        label: text(label),
        asset_type: text(asset_type),
    }
}

const HOUSE_REPORT: &str = r#"[
  {
    "name": "Hon. A",
    "transactions": [
      {"description": "Apple Inc", "ticker": "AAPL", "amount": "$1,001 - $15,000", "transaction_type": "purchase"},
      {"description": "Treasury Bond 2030", "ticker": "TB", "amount": "$1,001 - $15,000", "transaction_type": "purchase"},
      {"description": "Unlisted fund", "ticker": "--", "amount": "$1,001 - $15,000", "transaction_type": "purchase"}
    ]
  },
  {
    "name": "Hon. B",
    "transactions": [
      {"description": "Microsoft Corp", "ticker": "MSFT", "amount": "$15,001 - $50,000", "transaction_type": "sale_full"},
      {"description": "Tesla Inc", "ticker": "TSLA", "amount": "$250,001 - $500,000", "transaction_type": "sale_partial"},
      {"description": "Exchange of shares", "ticker": "IBM", "amount": "$1,001 - $15,000", "transaction_type": "exchange"}
    ]
  }
]"#;

const SENATE_REPORT: &str = r#"[
  {
    "first_name": "C",
    "transactions": [
      {"asset_type": "Stock", "ticker": "<a href=\"https://finance.yahoo.com/q?s=NVDA\" target=\"_blank\">NVDA</a>", "amount": "$50,001 - $100,000", "type": "Purchase"},
      {"asset_type": "Municipal Security", "ticker": "--", "amount": "$1,001 - $15,000", "type": "Purchase"},
      {"asset_type": "Stock", "ticker": "--", "amount": "$1,001 - $15,000", "type": "Purchase"},
      {"asset_type": "Stock Option", "ticker": "<a href=\"x\">AMD</a>", "amount": "$1,001 - $15,000", "type": "Purchase"},
      {"asset_type": "Stock", "ticker": "<a href=\"x\">KO</a>", "amount": "$1,001 - $15,000", "type": "Sale (Full)"},
      {"asset_type": "Stock", "ticker": "<a href=\"x\">PEP</a>", "amount": "$15,001 - $50,000", "type": "Sale (Partial)"}
    ]
  }
]"#;

#[test]
fn labels_are_normalized() {
    assert_eq!(classify_action("Purchase"), Action::Buy);
    assert_eq!(classify_action("purchase"), Action::Buy);
    assert_eq!(classify_action("Sale (Full)"), Action::SellFull);
    assert_eq!(classify_action("sale_full"), Action::SellFull);
    assert_eq!(classify_action("Sale (Partial)"), Action::SellPartial);
    assert_eq!(classify_action("sale_partial"), Action::SellPartial);
}

#[test]
fn other_labels_are_unknown() {
    assert_eq!(classify_action("Exchange"), Action::Unknown);
    assert_eq!(classify_action("exchange"), Action::Unknown);
    assert_eq!(classify_action(""), Action::Unknown);
    assert_eq!(classify_action("PURCHASE"), Action::Unknown);
    assert_eq!(classify_action("Purchase "), Action::Unknown);
    assert_eq!(classify_action("Sale"), Action::Unknown);
    assert_eq!(classify_action("sale_full_"), Action::Unknown);
}

#[test]
fn chamber_selector_is_house_or_senate() {
    assert_eq!(parse_chamber("house"), Some(Chamber::House));
    assert_eq!(parse_chamber("senate"), Some(Chamber::Senate));
    assert_eq!(parse_chamber("House"), None);
    assert_eq!(parse_chamber("congress"), None);
    assert_eq!(parse_chamber(""), None);
    assert_eq!(Chamber::House.name(), "house");
    assert_eq!(Chamber::Senate.name(), "senate");
}

#[test]
fn intent_needs_ticker_and_amount() {
    let made = TradeIntent::new(Action::Buy, "AAPL", 8000).unwrap();
    assert_eq!(made.action(), Action::Buy);
    assert_eq!(made.ticker(), "AAPL");
    assert_eq!(made.notional_amount(), 8000);
    assert_eq!(TradeIntent::new(Action::Buy, "", 8000), None);
    assert_eq!(TradeIntent::new(Action::Buy, "AAPL", -1), None);
    assert!(TradeIntent::new(Action::Unknown, "AAPL", 0).is_some());
    assert_eq!(made.clone(), made);
}

#[test]
fn assembling_classifies_the_label() {
    assert_eq!(assemble("purchase", "AAPL", Some(8000)), Some(filed(Action::Buy, "AAPL", 8000)));
    assert_eq!(
        assemble("Sale (Full)", "AAPL", Some(8000)),
        Some(filed(Action::SellFull, "AAPL", 8000))
    );
    assert_eq!(assemble("gift", "AAPL", Some(8000)), Some(filed(Action::Unknown, "AAPL", 8000)));
    assert_eq!(assemble("purchase", "AAPL", None), None);
    assert_eq!(assemble("purchase", "", Some(8000)), None);
}

#[test]
fn descriptions_of_bonds_options_and_notes_are_excluded() {
    assert!(is_excluded("Treasury Bond 2030"));
    assert!(is_excluded("Call Option on XYZ"));
    assert!(is_excluded("Promissory Note"));
    assert!(is_excluded("Notebook Corp"));
    assert!(!is_excluded("Apple Inc"));
    assert!(!is_excluded("bond, option, note"));
    assert!(!is_excluded(""));
}

#[test]
fn house_record_becomes_an_intent() {
    assert_eq!(
        house_intent(&house_record("Apple Inc", "AAPL", "$1,001 - $15,000", "purchase")),
        Some(filed(Action::Buy, "AAPL", 8000))
    );
    assert_eq!(
        house_intent(&house_record("Apple Inc", "AAPL", "$250,001 - $500,000", "sale_partial")),
        Some(filed(Action::SellPartial, "AAPL", 375000))
    );
    assert_eq!(
        house_intent(&house_record("Apple Inc", "AAPL", "$1,001 - $15,000", "swap")),
        Some(filed(Action::Unknown, "AAPL", 8000))
    );
}

#[test]
fn house_ticker_is_taken_as_filed() {
    assert_eq!(
        house_intent(&house_record("Berkshire", "BRK.B", "$1,001 - $15,000", "purchase")),
        Some(filed(Action::Buy, "BRK.B", 8000))
    );
}

#[test]
fn house_record_is_dropped_by_description_or_placeholder() {
    assert_eq!(
        house_intent(&house_record("Some Bond", "AAPL", "$1,001 - $15,000", "purchase")),
        None
    );
    assert_eq!(
        house_intent(&house_record("Put Option", "AAPL", "$1,001 - $15,000", "purchase")),
        None
    );
    assert_eq!(
        house_intent(&house_record("Senior Note", "AAPL", "$1,001 - $15,000", "purchase")),
        None
    );
    assert_eq!(
        house_intent(&house_record("Apple Inc", "--", "$1,001 - $15,000", "purchase")),
        None
    );
    assert_eq!(house_intent(&house_record("Apple Inc", "", "$1,001 - $15,000", "purchase")), None);
}

#[test]
fn house_record_with_unreadable_amount_is_dropped() {
    assert_eq!(house_intent(&house_record("Apple Inc", "AAPL", "a lot", "purchase")), None);
    assert_eq!(
        house_intent(&house_record("Apple Inc", "AAPL", "$1,000,001 - $5,000,000", "purchase")),
        None
    );
}

#[test]
fn house_record_missing_a_field_is_dropped() {
    let whole = house_record("Apple Inc", "AAPL", "$1,001 - $15,000", "purchase");
    assert!(house_intent(&whole).is_some());
    assert_eq!(house_intent(&Transaction { description: None, ..whole.clone() }), None);
    assert_eq!(house_intent(&Transaction { ticker: None, ..whole.clone() }), None);
    assert_eq!(house_intent(&Transaction { amount: None, ..whole.clone() }), None);
    assert_eq!(house_intent(&Transaction { label: None, ..whole.clone() }), None);
    assert!(house_intent(&Transaction { asset_type: text("Bond"), ..whole }).is_some());
}

#[test]
fn senate_record_becomes_an_intent() {
    assert_eq!(
        senate_intent(&senate_record(
            "Stock",
            "<a href=\"x\">NVDA</a>",
            "$50,001 - $100,000",
            "Purchase"
        )),
        Some(filed(Action::Buy, "NVDA", 75000))
    );
    assert_eq!(
        senate_intent(&senate_record("Stock", "<a>KO</a>", "$1,001 - $15,000", "Sale (Full)")),
        Some(filed(Action::SellFull, "KO", 8000))
    );
}

#[test]
fn senate_record_is_kept_only_for_stock() {
    assert_eq!(
        senate_intent(&senate_record("Stock Option", "<a>KO</a>", "$1,001 - $15,000", "Purchase")),
        None
    );
    assert_eq!(
        senate_intent(&senate_record("stock", "<a>KO</a>", "$1,001 - $15,000", "Purchase")),
        None
    );
    assert_eq!(
        senate_intent(&senate_record("Stock", "--", "$1,001 - $15,000", "Purchase")),
        None
    );
}

#[test]
fn senate_record_without_a_symbol_in_its_markup_is_dropped() {
    assert_eq!(
        senate_intent(&senate_record("Stock", "KO", "$1,001 - $15,000", "Purchase")),
        None
    );
    assert_eq!(
        senate_intent(&senate_record("Stock", "<a>ko</a>", "$1,001 - $15,000", "Purchase")),
        None
    );
}

#[test]
fn senate_record_missing_a_field_is_dropped() {
    let whole = senate_record("Stock", "<a>KO</a>", "$1,001 - $15,000", "Purchase");
    assert!(senate_intent(&whole).is_some());
    assert_eq!(senate_intent(&Transaction { asset_type: None, ..whole.clone() }), None);
    assert_eq!(senate_intent(&Transaction { ticker: None, ..whole.clone() }), None);
    assert_eq!(senate_intent(&Transaction { amount: None, ..whole.clone() }), None);
    assert_eq!(senate_intent(&Transaction { label: None, ..whole.clone() }), None);
    assert!(senate_intent(&Transaction { description: text("Some Bond"), ..whole }).is_some());
}

#[test]
fn chamber_selects_the_rules() {
    let record = Transaction {
        description: text("Apple Inc"),
        ticker: text("<a>AAPL</a>"),
        amount: text("$1,001 - $15,000"),
        label: text("Purchase"),
        asset_type: text("Stock"),
    };
    assert_eq!(
        normalize(Chamber::House, &record),
        Some(filed(Action::Buy, "<a>AAPL</a>", 8000))
    );
    assert_eq!(normalize(Chamber::Senate, &record), Some(filed(Action::Buy, "AAPL", 8000)));
}

#[test]
fn incomplete_record_does_not_abort_the_batch() {
    let good_before = house_record("Apple Inc", "AAPL", "$1,001 - $15,000", "purchase");
    let broken = Transaction { amount: None, ..good_before.clone() };
    let good_after = house_record("Microsoft", "MSFT", "$15,001 - $50,000", "sale_full");
    let with_broken = vec![good_before.clone(), broken, good_after.clone()];
    let without = vec![good_before, good_after];
    let expected = vec![filed(Action::Buy, "AAPL", 8000), filed(Action::SellFull, "MSFT", 32500)];
    assert_eq!(collect_intents(Chamber::House, &with_broken), expected);
    assert_eq!(collect_intents(Chamber::House, &without), expected);
}

#[test]
fn batch_of_only_unusable_records_is_empty() {
    let records = vec![
        Transaction { description: None, ticker: None, amount: None, label: None, asset_type: None },
        house_record("Apple Inc", "--", "$1,001 - $15,000", "purchase"),
    ];
    assert_eq!(collect_intents(Chamber::House, &records), Vec::new());
    assert_eq!(collect_intents(Chamber::Senate, &records), Vec::new());
    assert_eq!(collect_intents(Chamber::House, &Vec::new()), Vec::new());
}

#[test]
fn record_is_read_from_json() {
    let value: serde_json::Value = serde_json::from_str(
        r#"{"description": "Apple Inc", "ticker": "AAPL", "amount": "$1,001 - $15,000",
            "transaction_type": "purchase", "type": "Sale (Full)", "asset_type": 7}"#,
    )
    .unwrap();
    assert_eq!(
        read_transaction(Chamber::House, &value),
        Transaction {
            description: text("Apple Inc"),
            ticker: text("AAPL"),
            amount: text("$1,001 - $15,000"),
            label: text("purchase"),
            asset_type: None,
        }
    );
    assert_eq!(read_transaction(Chamber::Senate, &value).label, text("Sale (Full)"));
    let not_an_object: serde_json::Value = serde_json::from_str("[1, 2]").unwrap();
    assert_eq!(
        read_transaction(Chamber::House, &not_an_object),
        Transaction { description: None, ticker: None, amount: None, label: None, asset_type: None }
    );
}

#[test]
fn records_are_read_line_after_line() {
    let records = read_records(Chamber::House, HOUSE_REPORT).unwrap();
    assert_eq!(records.len(), 6);
    assert_eq!(records[0].ticker, text("AAPL"));
    assert_eq!(records[2].ticker, text("--"));
    assert_eq!(records[3].ticker, text("MSFT"));
    assert_eq!(records[5].label, text("exchange"));
}

#[test]
fn house_report_yields_intents_in_report_order() {
    assert_eq!(
        read_report(Chamber::House, HOUSE_REPORT),
        Ok(vec![
            filed(Action::Buy, "AAPL", 8000),
            filed(Action::SellFull, "MSFT", 32500),
            filed(Action::SellPartial, "TSLA", 375000),
            filed(Action::Unknown, "IBM", 8000),
        ])
    );
}

#[test]
fn senate_report_yields_intents_in_report_order() {
    assert_eq!(
        read_report(Chamber::Senate, SENATE_REPORT),
        Ok(vec![
            filed(Action::Buy, "NVDA", 75000),
            filed(Action::SellFull, "KO", 8000),
            filed(Action::SellPartial, "PEP", 32500),
        ])
    );
}

#[test]
fn report_read_by_the_other_chambers_rules_yields_nothing() {
    assert_eq!(read_report(Chamber::Senate, HOUSE_REPORT), Ok(Vec::new()));
    assert_eq!(read_report(Chamber::House, SENATE_REPORT), Ok(Vec::new()));
}

#[test]
fn malformed_records_are_skipped_in_a_report() {
    let body = r#"[
      {"transactions": [
        {"description": "Apple Inc", "ticker": "AAPL", "amount": "$1,001 - $15,000", "transaction_type": "purchase"},
        {"description": "No amount", "ticker": "GOOG", "transaction_type": "purchase"},
        {"description": "Ticker is a number", "ticker": 5, "amount": "$1,001 - $15,000", "transaction_type": "purchase"},
        {"description": null, "ticker": "META", "amount": "$1,001 - $15,000", "transaction_type": "purchase"},
        "not an object",
        {"description": "Bad amount", "ticker": "ORCL", "amount": "plenty", "transaction_type": "purchase"},
        {"description": "Microsoft", "ticker": "MSFT", "amount": "$15,001 - $50,000", "transaction_type": "sale_full"}
      ]}
    ]"#;
    assert_eq!(
        read_report(Chamber::House, body),
        Ok(vec![filed(Action::Buy, "AAPL", 8000), filed(Action::SellFull, "MSFT", 32500)])
    );
}

#[test]
fn lines_without_transactions_add_nothing() {
    let body = r#"[
      {"name": "no transactions here"},
      {"transactions": "not a list"},
      17,
      {"transactions": []},
      {"transactions": [
        {"description": "Apple Inc", "ticker": "AAPL", "amount": "$1,001 - $15,000", "transaction_type": "purchase"}
      ]}
    ]"#;
    assert_eq!(read_report(Chamber::House, body), Ok(vec![filed(Action::Buy, "AAPL", 8000)]));
    assert_eq!(read_report(Chamber::House, "[]"), Ok(Vec::new()));
}

#[test]
fn body_that_is_no_report_is_malformed() {
    assert_eq!(read_report(Chamber::House, "not json"), Err(FeedError::Malformed));
    assert_eq!(read_report(Chamber::House, ""), Err(FeedError::Malformed));
    assert_eq!(read_report(Chamber::House, "{\"transactions\": []}"), Err(FeedError::Malformed));
    assert_eq!(read_report(Chamber::Senate, "\"text\""), Err(FeedError::Malformed));
    assert_eq!(read_records(Chamber::Senate, "[1, 2"), Err(FeedError::Malformed));
}

#[test]
fn response_is_ingested() {
    assert_eq!(
        ingest("senate", 200, SENATE_REPORT),
        Ok(vec![
            filed(Action::Buy, "NVDA", 75000),
            filed(Action::SellFull, "KO", 8000),
            filed(Action::SellPartial, "PEP", 32500),
        ])
    );
    assert_eq!(ingest("house", 200, HOUSE_REPORT).map(|intents| intents.len()), Ok(4));
}

#[test]
fn unknown_selector_is_a_configuration_error() {
    assert_eq!(ingest("lords", 200, HOUSE_REPORT), Err(FeedError::InvalidChamber));
    assert_eq!(ingest("", 404, "not json"), Err(FeedError::InvalidChamber));
}

#[test]
fn status_other_than_200_means_no_report() {
    assert_eq!(ingest("house", 404, HOUSE_REPORT), Err(FeedError::Unavailable));
    assert_eq!(ingest("house", 403, "not json"), Err(FeedError::Unavailable));
    assert_eq!(ingest("senate", 201, SENATE_REPORT), Err(FeedError::Unavailable));
}

#[test]
fn unreadable_body_is_malformed() {
    assert_eq!(ingest("house", 200, "<html>AccessDenied</html>"), Err(FeedError::Malformed));
    assert_eq!(ingest("senate", 200, "{}"), Err(FeedError::Malformed));
}

#[test]
fn records_are_judged_one_by_one() {
    let first = vec![
        house_record("Apple Inc", "AAPL", "$1,001 - $15,000", "purchase"),
        house_record("Some Bond", "BND", "$1,001 - $15,000", "purchase"),
    ];
    let second = vec![
        house_record("Microsoft", "MSFT", "$15,001 - $50,000", "sale_full"),
        house_record("Tesla", "TSLA", "unknown", "sale_full"),
        house_record("Coca-Cola", "KO", "$50,001 - $100,000", "sale_partial"),
    ];
    let mut joined = first.clone();
    joined.extend(second.clone());
    let mut expected = collect_intents(Chamber::House, &first);
    expected.extend(collect_intents(Chamber::House, &second));
    assert_eq!(collect_intents(Chamber::House, &joined), expected);
    assert_eq!(expected.len(), 3);
}

#[test]
fn ingested_intents_name_a_symbol_and_a_size() {
    for found in read_report(Chamber::House, HOUSE_REPORT).unwrap() {
        assert!(!found.ticker().is_empty());
        assert!(found.notional_amount() >= 0);
    }
    for found in read_report(Chamber::Senate, SENATE_REPORT).unwrap() {
        assert!(!found.ticker().is_empty());
        assert!(found.ticker().chars().all(|c| c.is_ascii_uppercase()));
        assert!(found.notional_amount() >= 0);
    }
}
