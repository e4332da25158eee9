//! The figures read off the brokerage's answers: the latest close of a
//! symbol, the span of time it is asked for, and an account's total worth.

use vstd::prelude::*;

verus! {

/// How far before the present the span of bars ends, in seconds: a bar that
/// is still forming is not asked for.
pub const SETTLE_SECONDS: i64 = 900;

/// The length of the span of bars, in seconds: one day.
pub const SPAN_SECONDS: i64 = 86400;

/// How many bars are asked for.
pub const BAR_LIMIT: usize = 1;

/// The span of daily bars to ask the brokerage for, in seconds since the
/// epoch.
#[derive(Clone, Copy, Debug, PartialEq, Eq, Structural)]
pub struct BarWindow {
    pub start: i64,
    pub end: i64,
    pub limit: usize,
}

/// The span asked for at time `now`: it ends a quarter of an hour before
/// `now`, starts one day before its end, and holds one bar.
pub open spec fn spec_bar_window(now: int) -> BarWindow {
    BarWindow {
        start: (now - SETTLE_SECONDS - SPAN_SECONDS) as i64,
        end: (now - SETTLE_SECONDS) as i64,
        limit: BAR_LIMIT,
    }
}

/// The span of bars to ask for at time `now`; none where its start would
/// lie before the first second that an `i64` can count.
pub fn bar_window(now: i64) -> (window: Option<BarWindow>)
    ensures
        window is Some <==> now - SETTLE_SECONDS - SPAN_SECONDS >= i64::MIN,
        window matches Some(w) ==> w == spec_bar_window(now as int) && w.end - w.start
            == SPAN_SECONDS && now - w.end == SETTLE_SECONDS,
{
    if now < i64::MIN + SETTLE_SECONDS + SPAN_SECONDS {
        None
    } else {
        let end = now - SETTLE_SECONDS;
        Some(BarWindow { start: end - SPAN_SECONDS, end, limit: BAR_LIMIT })
    }
}

/// The price read off the bars that came back: the close of the first, and
/// zero, which stands for no price, where none came back.
pub open spec fn spec_latest_close(closes: Seq<u64>) -> int {
    if closes.len() == 0 {
        0
    } else {
        closes[0] as int
    }
}

/// The price read off the closes of the bars that came back.
pub fn latest_close(closes: &Vec<u64>) -> (price: u64)
    ensures
        price == spec_latest_close(closes@),
{
    if closes.len() == 0 {
        0
    } else {
        closes[0]
    }
}

/// The sum of a row of amounts.
pub open spec fn spec_sum(amounts: Seq<i64>) -> int
    decreases amounts.len(),
{
    if amounts.len() == 0 {
        0
    } else {
        spec_sum(amounts.drop_last()) + amounts.last()
    }
}

/// An account's total worth: the market values of its positions and its
/// cash, added up. There is none where the sum is beyond `i64`.
pub fn total_balance(market_values: &Vec<i64>, cash: i64) -> (total: Option<i64>)
    ensures
        match total {
            Some(t) => t == spec_sum(market_values@) + cash,
            None => !(i64::MIN <= spec_sum(market_values@) + cash <= i64::MAX),
        },
{
    let mut sum: i128 = 0;
    let mut i: usize = 0;
    while i < market_values.len()
        invariant
            i <= market_values.len(),
            sum == spec_sum(market_values@.take(i as int)),
            -(i * 0x8000_0000_0000_0000) <= sum <= i * 0x7fff_ffff_ffff_ffff,
        decreases market_values.len() - i,
    {
        proof {
            assert(market_values@.take(i + 1).drop_last() == market_values@.take(i as int));
            assert(market_values@.take(i + 1).last() == market_values@[i as int]);
        }
        sum = sum + market_values[i] as i128;
        i += 1;
    }
    assert(market_values@.take(market_values.len() as int) == market_values@);
    let all: i128 = sum + cash as i128;
    if all < i64::MIN as i128 || all > i64::MAX as i128 {
        None
    } else {
        Some(all as i64)
    }
}

} // verus!
