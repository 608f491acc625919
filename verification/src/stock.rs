//! The priced time series: prices, records, and a stock with its price range.

use crate::binary32::{at_least, ge, greater_than, gt, is_nan, less_than, lt};
use crate::error::AppError;
use vstd::prelude::*;

verus! {

/// The prices of one sampling interval, each a binary32 bit pattern.
#[derive(Clone, Copy, Debug, PartialEq, Eq, Structural)]
pub struct Price {
    pub open: u32,
    pub high: u32,
    pub low: u32,
    pub close: u32,
    pub volume: u32,
}

impl Price {
    /// Puts together the five numbers of a record as a reader of decimal
    /// numbers returned them, each `None` where its text was no number. Fails,
    /// with a parse error, exactly where one of them is `None`.
    pub fn from_readings(
        open: Option<u32>,
        high: Option<u32>,
        low: Option<u32>,
        close: Option<u32>,
        volume: Option<u32>,
    ) -> (r: Result<Price, AppError>)
        ensures
            match r {
                Ok(price) => open == Some(price.open) && high == Some(price.high) && low == Some(
                    price.low,
                ) && close == Some(price.close) && volume == Some(price.volume),
                Err(e) => e == AppError::ParseError && (open is None || high is None || low is None
                    || close is None || volume is None),
            },
    {
        match (open, high, low, close, volume) {
            (Some(open), Some(high), Some(low), Some(close), Some(volume)) => Ok(
                Price { open, high, low, close, volume },
            ),
            _ => Err(AppError::ParseError),
        }
    }

    /// Whether the interval closed at or above its opening price. A candle
    /// is drawn green where this holds and red where it does not.
    pub open spec fn rising(self) -> bool {
        ge(self.close, self.open)
    }

    /// Decides whether the interval closed at or above its opening price.
    pub fn is_rising(&self) -> (r: bool)
        ensures
            r == self.rising(),
    {
        at_least(self.close, self.open)
    }
}

/// One sample: the timestamp as the provider wrote it, and the prices.
#[derive(Debug, PartialEq, Eq)]
pub struct Record {
    pub time: String,
    pub price: Price,
}

impl Clone for Record {
    fn clone(&self) -> (copy: Record)
        ensures
            copy == *self,
    {
        Record { time: self.time.clone(), price: self.price }
    }
}

/// What a record is: its timestamp as a sequence of characters, and its prices.
pub struct RecordView {
    pub time: Seq<char>,
    pub price: Price,
}

impl View for Record {
    type V = RecordView;

    open spec fn view(&self) -> RecordView {
        RecordView { time: self.time@, price: self.price }
    }
}

/// The views of a sequence of records, in order.
pub open spec fn record_views(records: Seq<Record>) -> Seq<RecordView> {
    records.map_values(|r: Record| r@)
}

/// The high prices of a series, in order.
pub open spec fn highs(records: Seq<RecordView>) -> Seq<u32> {
    records.map_values(|r: RecordView| r.price.high)
}

/// The low prices of a series, in order.
pub open spec fn lows(records: Seq<RecordView>) -> Seq<u32> {
    records.map_values(|r: RecordView| r.price.low)
}

/// The highest price after a scan over `prices`: the first price, replaced
/// by each later one that is greater than what the scan holds by then. The
/// scan of nothing holds the pattern of zero.
pub open spec fn running_high(prices: Seq<u32>) -> u32
    decreases prices.len(),
{
    if prices.len() == 0 {
        0
    } else if prices.len() == 1 {
        prices[0]
    } else {
        let held = running_high(prices.drop_last());
        if gt(prices.last(), held) {
            prices.last()
        } else {
            held
        }
    }
}

/// The lowest price after a scan over `prices`: the first price, replaced by
/// each later one that is less than what the scan holds by then. The scan of
/// nothing holds the pattern of zero.
pub open spec fn running_low(prices: Seq<u32>) -> u32
    decreases prices.len(),
{
    if prices.len() == 0 {
        0
    } else if prices.len() == 1 {
        prices[0]
    } else {
        let held = running_low(prices.drop_last());
        if lt(prices.last(), held) {
            prices.last()
        } else {
            held
        }
    }
}

/// Whether `m` is one of `prices` and at least every one of them.
pub open spec fn is_maximum(prices: Seq<u32>, m: u32) -> bool {
    &&& exists|i: int| 0 <= i < prices.len() && #[trigger] prices[i] == m
    &&& forall|i: int| 0 <= i < prices.len() ==> ge(m, #[trigger] prices[i])
}

/// Whether `m` is one of `prices` and at most every one of them.
pub open spec fn is_minimum(prices: Seq<u32>, m: u32) -> bool {
    &&& exists|i: int| 0 <= i < prices.len() && #[trigger] prices[i] == m
    &&& forall|i: int| 0 <= i < prices.len() ==> ge(#[trigger] prices[i], m)
}

/// Whether none of `prices` is a NaN.
pub open spec fn all_ordered(prices: Seq<u32>) -> bool {
    forall|i: int| 0 <= i < prices.len() ==> !is_nan(#[trigger] prices[i])
}

/// Where no price is a NaN, the scan for the highest ends on one of the
/// prices, and on one that no price exceeds.
pub proof fn lemma_running_high_is_maximum(prices: Seq<u32>)
    requires
        prices.len() > 0,
        all_ordered(prices),
    ensures
        is_maximum(prices, running_high(prices)),
    decreases prices.len(),
{
    if prices.len() == 1 {
        assert(prices[0] == running_high(prices));
    } else {
        let front = prices.drop_last();
        lemma_running_high_is_maximum(front);
        let held = running_high(front);
        let k = choose|i: int| 0 <= i < front.len() && #[trigger] front[i] == held;
        assert(prices[k] == front[k]);
        assert(prices[prices.len() - 1] == prices.last());
        assert forall|i: int| 0 <= i < prices.len() implies ge(
            running_high(prices),
            #[trigger] prices[i],
        ) by {
            if i < front.len() {
                assert(prices[i] == front[i]);
            }
        }
    }
}

/// Where no price is a NaN, the scan for the lowest ends on one of the
/// prices, and on one that no price falls below.
pub proof fn lemma_running_low_is_minimum(prices: Seq<u32>)
    requires
        prices.len() > 0,
        all_ordered(prices),
    ensures
        is_minimum(prices, running_low(prices)),
    decreases prices.len(),
{
    if prices.len() == 1 {
        assert(prices[0] == running_low(prices));
    } else {
        let front = prices.drop_last();
        lemma_running_low_is_minimum(front);
        let held = running_low(front);
        let k = choose|i: int| 0 <= i < front.len() && #[trigger] front[i] == held;
        assert(prices[k] == front[k]);
        assert(prices[prices.len() - 1] == prices.last());
        assert forall|i: int| 0 <= i < prices.len() implies ge(
            #[trigger] prices[i],
            running_low(prices),
        ) by {
            if i < front.len() {
                assert(prices[i] == front[i]);
            }
        }
    }
}

/// What a stock is: its records, most recent first, the range of their
/// prices, and what the provider said of the series.
pub struct StockView {
    pub records: Seq<RecordView>,
    pub highest: u32,
    pub lowest: u32,
    pub time: Seq<char>,
    pub interval: Seq<char>,
    pub time_zone: Seq<char>,
}

/// A series of records in the order the provider gave them, with the highest
/// and lowest price of the series, the time of the last refresh, the
/// sampling interval and the time zone.
#[derive(Debug)]
pub struct Stock {
    records: Vec<Record>,
    highest: u32,
    lowest: u32,
    time: String,
    interval: String,
    time_zone: String,
}

impl View for Stock {
    type V = StockView;

    closed spec fn view(&self) -> StockView {
        StockView {
            records: record_views(self.records@),
            highest: self.highest,
            lowest: self.lowest,
            time: self.time@,
            interval: self.interval@,
            time_zone: self.time_zone@,
        }
    }
}

impl Clone for Stock {
    fn clone(&self) -> (copy: Stock)
        ensures
            copy@ == self@,
    {
        proof {
            use_type_invariant(self);
        }
        let mut records: Vec<Record> = Vec::new();
        let mut i: usize = 0;
        while i < self.records.len()
            invariant
                i <= self.records.len(),
                records@ == self.records@.take(i as int),
            decreases self.records.len() - i,
        {
            records.push(self.records[i].clone());
            proof {
                assert(records@ =~= self.records@.take(i + 1));
            }
            i += 1;
        }
        proof {
            assert(records@ =~= self.records@);
        }
        Stock {
            records,
            highest: self.highest,
            lowest: self.lowest,
            time: self.time.clone(),
            interval: self.interval.clone(),
            time_zone: self.time_zone.clone(),
        }
    }
}

impl Stock {
    /// The range is what the scans over the highs and the lows end on.
    #[verifier::type_invariant]
    spec fn range_is_scanned(&self) -> bool {
        &&& self.highest == running_high(highs(record_views(self.records@)))
        &&& self.lowest == running_low(lows(record_views(self.records@)))
    }

    /// Builds a stock from its records and metadata, scanning the records
    /// once for the highest high and the lowest low.
    pub fn from_records(
        time: String,
        interval: String,
        time_zone: String,
        records: Vec<Record>,
    ) -> (stock: Stock)
        ensures
            stock@.records == record_views(records@),
            stock@.time == time@,
            stock@.interval == interval@,
            stock@.time_zone == time_zone@,
            stock@.highest == running_high(highs(stock@.records)),
            stock@.lowest == running_low(lows(stock@.records)),
            records@.len() > 0 && all_ordered(highs(stock@.records)) ==> is_maximum(
                highs(stock@.records),
                stock@.highest,
            ),
            records@.len() > 0 && all_ordered(lows(stock@.records)) ==> is_minimum(
                lows(stock@.records),
                stock@.lowest,
            ),
    {
        let ghost views = record_views(records@);
        let ghost all_highs = highs(views);
        let ghost all_lows = lows(views);
        let mut highest: u32 = 0;
        let mut lowest: u32 = 0;
        let mut i: usize = 0;
        while i < records.len()
            invariant
                i <= records.len(),
                views == record_views(records@),
                all_highs == highs(views),
                all_lows == lows(views),
                highest == running_high(all_highs.take(i as int)),
                lowest == running_low(all_lows.take(i as int)),
            decreases records.len() - i,
        {
            let price = records[i].price;
            proof {
                let upto = all_highs.take(i + 1);
                let downto = all_lows.take(i + 1);
                assert(upto.drop_last() =~= all_highs.take(i as int));
                assert(downto.drop_last() =~= all_lows.take(i as int));
                assert(upto.last() == price.high);
                assert(downto.last() == price.low);
            }
            if i == 0 {
                highest = price.high;
                lowest = price.low;
            }
            if greater_than(price.high, highest) {
                highest = price.high;
            }
            if less_than(price.low, lowest) {
                lowest = price.low;
            }
            i += 1;
        }
        proof {
            assert(all_highs.take(i as int) =~= all_highs);
            assert(all_lows.take(i as int) =~= all_lows);
            if records@.len() > 0 {
                if all_ordered(all_highs) {
                    lemma_running_high_is_maximum(all_highs);
                }
                if all_ordered(all_lows) {
                    lemma_running_low_is_minimum(all_lows);
                }
            }
        }
        Stock { records, highest, lowest, time, interval, time_zone }
    }

    /// The records, in the order the provider gave them.
    pub fn records(&self) -> (records: &Vec<Record>)
        ensures
            record_views(records@) == self@.records,
    {
        &self.records
    }

    /// How many records the series has.
    pub fn len(&self) -> (len: usize)
        ensures
            len == self@.records.len(),
    {
        self.records.len()
    }

    /// The highest price of the series: what the scan over the highs ends on.
    pub fn highest(&self) -> (highest: u32)
        ensures
            highest == self@.highest,
            highest == running_high(highs(self@.records)),
    {
        proof {
            use_type_invariant(self);
        }
        self.highest
    }

    /// The lowest price of the series: what the scan over the lows ends on.
    pub fn lowest(&self) -> (lowest: u32)
        ensures
            lowest == self@.lowest,
            lowest == running_low(lows(self@.records)),
    {
        proof {
            use_type_invariant(self);
        }
        self.lowest
    }

    /// When the provider last refreshed the series.
    pub fn time(&self) -> (time: &String)
        ensures
            time@ == self@.time,
    {
        &self.time
    }

    /// The sampling interval, as the provider names it.
    pub fn interval(&self) -> (interval: &String)
        ensures
            interval@ == self@.interval,
    {
        &self.interval
    }

    /// The time zone of the timestamps.
    pub fn time_zone(&self) -> (time_zone: &String)
        ensures
            time_zone@ == self@.time_zone,
    {
        &self.time_zone
    }
}

/// In a stock whose range is what the scans end on, with at least one record
/// and no NaN among its highs and lows, the highest price is the maximum of
/// the highs and the lowest price the minimum of the lows.
pub proof fn lemma_range_is_extreme(stock: StockView)
    requires
        stock.highest == running_high(highs(stock.records)),
        stock.lowest == running_low(lows(stock.records)),
        stock.records.len() > 0,
        all_ordered(highs(stock.records)),
        all_ordered(lows(stock.records)),
    ensures
        is_maximum(highs(stock.records), stock.highest),
        is_minimum(lows(stock.records), stock.lowest),
{
    lemma_running_high_is_maximum(highs(stock.records));
    lemma_running_low_is_minimum(lows(stock.records));
}

} // verus!
