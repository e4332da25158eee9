use capitol_trades::market::{
    bar_window, latest_close, total_balance, BarWindow, BAR_LIMIT, SETTLE_SECONDS, SPAN_SECONDS,
};

#[test]
fn window_ends_a_quarter_hour_ago_and_spans_a_day() {
    assert_eq!(
        bar_window(1_700_000_000),
        Some(BarWindow { start: 1_699_912_700, end: 1_699_999_100, limit: 1 })
    );
    assert_eq!(bar_window(0), Some(BarWindow { start: -87_300, end: -900, limit: 1 }));
    assert_eq!(SETTLE_SECONDS, 900);
    assert_eq!(SPAN_SECONDS, 86_400);
    assert_eq!(BAR_LIMIT, 1);
}

#[test]
fn window_at_the_edge_of_time() {
    assert_eq!(bar_window(i64::MIN), None);
    assert_eq!(bar_window(i64::MIN + 87_299), None);
    assert_eq!(
        bar_window(i64::MIN + 87_300),
        Some(BarWindow { start: i64::MIN, end: i64::MIN + 86_400, limit: 1 })
    );
    assert_eq!(
        bar_window(i64::MAX),
        Some(BarWindow { start: i64::MAX - 87_300, end: i64::MAX - 900, limit: 1 })
    );
}

#[test]
fn no_bar_means_no_price() {
    assert_eq!(latest_close(&Vec::new()), 0);
}

#[test]
fn first_bar_gives_the_price() {
    assert_eq!(latest_close(&vec![150]), 150);
    assert_eq!(latest_close(&vec![150, 140, 130]), 150);
    assert_eq!(latest_close(&vec![0, 140]), 0);
}

#[test]
fn balance_adds_positions_and_cash() {
    assert_eq!(total_balance(&vec![100, 200], 50), Some(350));
    assert_eq!(total_balance(&Vec::new(), 42), Some(42));
    assert_eq!(total_balance(&vec![-500, 200], 100), Some(-200));
}

#[test]
fn balance_beyond_the_integer_range_is_absent() {
    assert_eq!(total_balance(&vec![i64::MAX], 1), None);
    assert_eq!(total_balance(&vec![i64::MIN], -1), None);
    assert_eq!(total_balance(&vec![i64::MAX, i64::MAX], 0), None);
}

#[test]
fn balance_may_pass_the_range_on_the_way() {
    assert_eq!(total_balance(&vec![i64::MAX, i64::MAX, i64::MIN], i64::MIN), Some(-2));
    assert_eq!(total_balance(&vec![i64::MAX], 0), Some(i64::MAX));
}
