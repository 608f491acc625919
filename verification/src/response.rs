//! Reading a quote response: from the provider's JSON text to the texts of a
//! series, and from those, with a reader of decimal numbers, to a stock.

use crate::error::AppError;
use crate::json::{
    entries_of, json_document, json_entries, json_member, json_object, json_text, member,
    object_of, parse_document, text_of,
};
use crate::request::{series_key, series_key_of};
use crate::stock::{
    highs, lows, running_high, running_low, Price, Record, RecordView, Stock, StockView,
};
use serde_json::Value;
use vstd::prelude::*;

verus! {

/// One record as the response writes it: the timestamp it is keyed by and
/// its five numeric fields, still as text.
#[derive(Debug, PartialEq, Eq)]
pub struct RawRecord {
    pub time: String,
    pub open: String,
    pub high: String,
    pub low: String,
    pub close: String,
    pub volume: String,
}

/// What a raw record is: six sequences of characters.
pub struct RawRecordView {
    pub time: Seq<char>,
    pub open: Seq<char>,
    pub high: Seq<char>,
    pub low: Seq<char>,
    pub close: Seq<char>,
    pub volume: Seq<char>,
}

impl View for RawRecord {
    type V = RawRecordView;

    open spec fn view(&self) -> RawRecordView {
        RawRecordView {
            time: self.time@,
            open: self.open@,
            high: self.high@,
            low: self.low@,
            close: self.close@,
            volume: self.volume@,
        }
    }
}

/// A response as far as its shape goes: the three metadata texts and the
/// records in the order the response lists them.
#[derive(Debug, PartialEq, Eq)]
pub struct RawSeries {
    pub time: String,
    pub interval: String,
    pub time_zone: String,
    pub records: Vec<RawRecord>,
}

/// What a raw series is.
pub struct RawSeriesView {
    pub time: Seq<char>,
    pub interval: Seq<char>,
    pub time_zone: Seq<char>,
    pub records: Seq<RawRecordView>,
}

impl View for RawSeries {
    type V = RawSeriesView;

    open spec fn view(&self) -> RawSeriesView {
        RawSeriesView {
            time: self.time@,
            interval: self.interval@,
            time_zone: self.time_zone@,
            records: self.records@.map_values(|r: RawRecord| r@),
        }
    }
}

/// The text under `key` of the document's metadata object, if there is one.
pub open spec fn meta_text(document: Value, key: Seq<char>) -> Option<Seq<char>> {
    json_text(json_member(json_member(document, "Meta Data"@), key))
}

/// The text under `key` of one record's object, if there is one.
pub open spec fn field_text(row: Value, key: Seq<char>) -> Option<Seq<char>> {
    json_text(json_member(row, key))
}

/// The raw record of one entry of the time series, where each of its five
/// fields is a text.
pub open spec fn raw_record(entry: (Seq<char>, Value)) -> Option<RawRecordView> {
    match (
        field_text(entry.1, "1. open"@),
        field_text(entry.1, "2. high"@),
        field_text(entry.1, "3. low"@),
        field_text(entry.1, "4. close"@),
        field_text(entry.1, "5. volume"@),
    ) {
        (Some(open), Some(high), Some(low), Some(close), Some(volume)) => Some(
            RawRecordView { time: entry.0, open, high, low, close, volume },
        ),
        _ => None,
    }
}

/// The raw records of the entries of a time series, in order, where every
/// entry has one.
pub open spec fn raw_records(entries: Seq<(Seq<char>, Value)>) -> Option<Seq<RawRecordView>> {
    if forall|i: int| 0 <= i < entries.len() ==> (#[trigger] raw_record(entries[i])) is Some {
        Some(Seq::new(entries.len(), |i: int| raw_record(entries[i]).unwrap()))
    } else {
        None
    }
}

/// The raw series of a document: its three metadata texts and the raw
/// records of its time series. There is none where a metadata text is
/// missing, the time series is no object, or a field of a record is no text.
pub open spec fn raw_series(document: Value) -> Option<RawSeriesView> {
    match (
        meta_text(document, "3. Last Refreshed"@),
        meta_text(document, "4. Interval"@),
        meta_text(document, "6. Time Zone"@),
        json_object(json_member(document, series_key_of())),
    ) {
        (Some(time), Some(interval), Some(time_zone), Some(members)) => match raw_records(
            json_entries(members),
        ) {
            Some(records) => Some(RawSeriesView { time, interval, time_zone, records }),
            None => None,
        },
        _ => None,
    }
}

/// The raw series of a response text: that of the document it is read as.
pub open spec fn response_series(text: Seq<char>) -> Option<RawSeriesView> {
    match json_document(text) {
        Some(document) => raw_series(document),
        None => None,
    }
}

/// Reads the text under `key` of one JSON object.
fn read_text(object: &Value, key: &str) -> (r: Option<String>)
    ensures
        r is Some <==> json_text(json_member(*object, key@)) is Some,
        r matches Some(s) ==> json_text(json_member(*object, key@)) == Some(s@),
{
    match text_of(member(object, key)) {
        Some(s) => Some(s.to_owned()),
        None => None,
    }
}

/// Reads one entry of the time series as a raw record.
fn read_record(time: &String, row: &Value) -> (r: Option<RawRecord>)
    ensures
        r is Some <==> raw_record((time@, *row)) is Some,
        r matches Some(record) ==> raw_record((time@, *row)) == Some(record@),
{
    let open = match read_text(row, "1. open") {
        Some(s) => s,
        None => { return None; },
    };
    let high = match read_text(row, "2. high") {
        Some(s) => s,
        None => { return None; },
    };
    let low = match read_text(row, "3. low") {
        Some(s) => s,
        None => { return None; },
    };
    let close = match read_text(row, "4. close") {
        Some(s) => s,
        None => { return None; },
    };
    let volume = match read_text(row, "5. volume") {
        Some(s) => s,
        None => { return None; },
    };
    Some(RawRecord { time: time.clone(), open, high, low, close, volume })
}

/// Reads a parsed document as a raw series: the three metadata texts by
/// their keys under "Meta Data", and every entry of the member under the
/// series key with its five fields. Fails, with a parse error, exactly where the
/// document has no raw series.
pub fn read_document(document: &Value) -> (r: Result<RawSeries, AppError>)
    ensures
        match r {
            Ok(series) => raw_series(*document) == Some(series@),
            Err(e) => e == AppError::ParseError && raw_series(*document) is None,
        },
{
    let meta = member(document, "Meta Data");
    let time = match read_text(meta, "3. Last Refreshed") {
        Some(s) => s,
        None => { return Err(AppError::ParseError); },
    };
    let interval = match read_text(meta, "4. Interval") {
        Some(s) => s,
        None => { return Err(AppError::ParseError); },
    };
    let time_zone = match read_text(meta, "6. Time Zone") {
        Some(s) => s,
        None => { return Err(AppError::ParseError); },
    };
    let key = series_key();
    let members = match object_of(member(document, key.as_str())) {
        Some(m) => m,
        None => { return Err(AppError::ParseError); },
    };
    let entries = entries_of(members);
    let ghost named = json_entries(*members);
    let mut records: Vec<RawRecord> = Vec::new();
    let mut i: usize = 0;
    while i < entries.len()
        invariant
            i <= entries.len(),
            entries@.len() == named.len(),
            forall|j: int|
                0 <= j < entries@.len() ==> (#[trigger] entries@[j]).0@ == named[j].0
                    && *entries@[j].1 == named[j].1,
            records@.len() == i,
            forall|j: int| 0 <= j < i ==> #[trigger] raw_record(named[j]) == Some(records@[j]@),
            raw_series(*document) == (match raw_records(named) {
                Some(records) => Some(
                    RawSeriesView {
                        time: time@,
                        interval: interval@,
                        time_zone: time_zone@,
                        records,
                    },
                ),
                None => None,
            }),
        decreases entries.len() - i,
    {
        proof {
            assert(named[i as int] == (entries@[i as int].0@, *entries@[i as int].1));
        }
        match read_record(&entries[i].0, entries[i].1) {
            Some(record) => {
                records.push(record);
            },
            None => {
                proof {
                    assert(raw_record(named[i as int]) is None);
                }
                return Err(AppError::ParseError);
            },
        }
        i += 1;
    }
    let series = RawSeries { time, interval, time_zone, records };
    proof {
        assert(raw_records(named) is Some);
        assert(raw_records(named).unwrap() =~= series@.records);
    }
    Ok(series)
}

/// Reads a response text as a raw series. Fails, with a parse error,
/// exactly where the text is not JSON or its document has no raw series.
pub fn read_response(response: &str) -> (r: Result<RawSeries, AppError>)
    ensures
        match r {
            Ok(series) => response_series(response@) == Some(series@),
            Err(e) => e == AppError::ParseError && response_series(response@) is None,
        },
{
    match parse_document(response) {
        Ok(document) => read_document(&document),
        Err(_) => Err(AppError::ParseError),
    }
}

/// Whether `number` is something that `reader` may return for `text`.
pub open spec fn reads_as<F: Fn(&str) -> Option<u32>>(
    reader: F,
    text: Seq<char>,
    number: Option<u32>,
) -> bool {
    exists|s: &str| s@ == text && call_ensures(reader, (s,), number)
}

/// Whether `record` is `raw` with each of its five texts read as a number
/// by `reader`.
pub open spec fn record_read<F: Fn(&str) -> Option<u32>>(
    reader: F,
    raw: RawRecordView,
    record: RecordView,
) -> bool {
    &&& record.time == raw.time
    &&& reads_as(reader, raw.open, Some(record.price.open))
    &&& reads_as(reader, raw.high, Some(record.price.high))
    &&& reads_as(reader, raw.low, Some(record.price.low))
    &&& reads_as(reader, raw.close, Some(record.price.close))
    &&& reads_as(reader, raw.volume, Some(record.price.volume))
}

/// Whether `reader` may find no number in one of the five texts of `raw`.
pub open spec fn record_unread<F: Fn(&str) -> Option<u32>>(reader: F, raw: RawRecordView) -> bool {
    ||| reads_as(reader, raw.open, None)
    ||| reads_as(reader, raw.high, None)
    ||| reads_as(reader, raw.low, None)
    ||| reads_as(reader, raw.close, None)
    ||| reads_as(reader, raw.volume, None)
}

/// Reads the five numeric texts of a raw record with `reader`. Succeeds,
/// with the record of the numbers it returned, unless it found no number in
/// one of them.
pub fn read_numbers<F: Fn(&str) -> Option<u32>>(raw: &RawRecord, reader: &F) -> (r: Result<
    Record,
    AppError,
>)
    requires
        forall|s: &str| call_requires(*reader, (s,)),
    ensures
        match r {
            Ok(record) => record_read(*reader, raw@, record@),
            Err(e) => e == AppError::ParseError && record_unread(*reader, raw@),
        },
{
    let open = reader(raw.open.as_str());
    let high = reader(raw.high.as_str());
    let low = reader(raw.low.as_str());
    let close = reader(raw.close.as_str());
    let volume = reader(raw.volume.as_str());
    match Price::from_readings(open, high, low, close, volume) {
        Ok(price) => Ok(Record { time: raw.time.clone(), price }),
        Err(e) => Err(e),
    }
}

/// Whether `stock` is `raw` with every numeric text read by `reader`: the
/// same metadata, as many records in the same order, and the range that the
/// scans over their highs and lows end on.
pub open spec fn series_read<F: Fn(&str) -> Option<u32>>(
    reader: F,
    raw: RawSeriesView,
    stock: StockView,
) -> bool {
    &&& stock.time == raw.time
    &&& stock.interval == raw.interval
    &&& stock.time_zone == raw.time_zone
    &&& stock.records.len() == raw.records.len()
    &&& forall|i: int|
        0 <= i < raw.records.len() ==> record_read(
            reader,
            #[trigger] raw.records[i],
            stock.records[i],
        )
    &&& stock.highest == running_high(highs(stock.records))
    &&& stock.lowest == running_low(lows(stock.records))
}

/// Whether `reader` may find no number in some text of some record of `raw`.
pub open spec fn series_unread<F: Fn(&str) -> Option<u32>>(reader: F, raw: RawSeriesView) -> bool {
    exists|i: int| 0 <= i < raw.records.len() && record_unread(reader, #[trigger] raw.records[i])
}

/// Turns a raw series into a stock, reading every numeric text with
/// `reader`. Succeeds unless the reader found no number in one of them; a
/// series without records always succeeds.
pub fn read_series<F: Fn(&str) -> Option<u32>>(series: &RawSeries, reader: &F) -> (r: Result<
    Stock,
    AppError,
>)
    requires
        forall|s: &str| call_requires(*reader, (s,)),
    ensures
        match r {
            Ok(stock) => series_read(*reader, series@, stock@),
            Err(e) => e == AppError::ParseError && series_unread(*reader, series@),
        },
{
    let mut records: Vec<Record> = Vec::with_capacity(100);
    let mut i: usize = 0;
    while i < series.records.len()
        invariant
            i <= series.records.len(),
            forall|s: &str| call_requires(*reader, (s,)),
            records@.len() == i,
            forall|j: int|
                0 <= j < i ==> record_read(*reader, #[trigger] series@.records[j], records@[j]@),
        decreases series.records.len() - i,
    {
        proof {
            assert(series@.records[i as int] == series.records@[i as int]@);
        }
        match read_numbers(&series.records[i], reader) {
            Ok(record) => {
                records.push(record);
            },
            Err(e) => {
                return Err(e);
            },
        }
        i += 1;
    }
    let stock = Stock::from_records(
        series.time.clone(),
        series.interval.clone(),
        series.time_zone.clone(),
        records,
    );
    Ok(stock)
}

/// Reads a response text as a stock, reading every numeric text with
/// `reader`. Fails, with a parse error, where the text has no raw series,
/// and otherwise only where the reader found no number in one of the texts.
pub fn parse_response<F: Fn(&str) -> Option<u32>>(response: &str, reader: F) -> (r: Result<
    Stock,
    AppError,
>)
    requires
        forall|s: &str| call_requires(reader, (s,)),
    ensures
        match r {
            Ok(stock) => response_series(response@) matches Some(raw) && series_read(
                reader,
                raw,
                stock@,
            ),
            Err(e) => e == AppError::ParseError && (response_series(response@) matches Some(raw)
                ==> series_unread(reader, raw)),
        },
{
    match read_response(response) {
        Ok(series) => read_series(&series, &reader),
        Err(e) => Err(e),
    }
}

/// Whether `reader` never finds a number in `text`.
pub open spec fn rejects<F: Fn(&str) -> Option<u32>>(reader: F, text: Seq<char>) -> bool {
    forall|number: Option<u32>| reads_as(reader, text, number) ==> number is None
}

/// A document that lacks one of the three metadata texts has no raw series.
pub proof fn lemma_missing_metadata_fails(document: Value)
    requires
        meta_text(document, "3. Last Refreshed"@) is None || meta_text(document, "4. Interval"@)
            is None || meta_text(document, "6. Time Zone"@) is None,
    ensures
        raw_series(document) is None,
{
}

/// A document whose time series is no object, or holds an entry with a
/// field that is no text, has no raw series.
pub proof fn lemma_malformed_series_fails(document: Value, i: int)
    requires
        match json_object(json_member(document, series_key_of())) {
            Some(members) => 0 <= i < json_entries(members).len() && raw_record(
                json_entries(members)[i],
            ) is None,
            None => true,
        },
    ensures
        raw_series(document) is None,
{
}

/// No stock is a raw series read by a reader that never finds a number in
/// one of the numeric texts of one of its records: a malformed number fails
/// the whole series.
pub proof fn lemma_malformed_number_fails<F: Fn(&str) -> Option<u32>>(
    reader: F,
    raw: RawSeriesView,
    stock: StockView,
    i: int,
)
    requires
        0 <= i < raw.records.len(),
        rejects(reader, raw.records[i].open) || rejects(reader, raw.records[i].high) || rejects(
            reader,
            raw.records[i].low,
        ) || rejects(reader, raw.records[i].close) || rejects(reader, raw.records[i].volume),
    ensures
        !series_read(reader, raw, stock),
{
    if series_read(reader, raw, stock) {
        assert(record_read(reader, raw.records[i], stock.records[i]));
    }
}

/// Whether `reader` returns for every text what `number_of` says of it.
pub open spec fn reads_by<F: Fn(&str) -> Option<u32>>(
    reader: F,
    number_of: spec_fn(Seq<char>) -> Option<u32>,
) -> bool {
    forall|s: &str, number: Option<u32>|
        call_ensures(reader, (s,), number) ==> number == number_of(s@)
}

/// The prices of a raw record under `number_of`, where each of its five
/// texts has a number.
pub open spec fn price_by(
    number_of: spec_fn(Seq<char>) -> Option<u32>,
    raw: RawRecordView,
) -> Option<Price> {
    match (
        number_of(raw.open),
        number_of(raw.high),
        number_of(raw.low),
        number_of(raw.close),
        number_of(raw.volume),
    ) {
        (Some(open), Some(high), Some(low), Some(close), Some(volume)) => Some(
            Price { open, high, low, close, volume },
        ),
        _ => None,
    }
}

/// With a reader that returns for every text what `number_of` says of it, a
/// stock read from a raw series holds, record by record, the timestamp of
/// the raw record and the numbers of its five texts: nothing is added,
/// dropped, reordered or changed.
pub proof fn lemma_records_preserved<F: Fn(&str) -> Option<u32>>(
    reader: F,
    number_of: spec_fn(Seq<char>) -> Option<u32>,
    raw: RawSeriesView,
    stock: StockView,
)
    requires
        reads_by(reader, number_of),
        series_read(reader, raw, stock),
    ensures
        stock.records.len() == raw.records.len(),
        forall|i: int|
            0 <= i < raw.records.len() ==> (#[trigger] stock.records[i]).time
                == raw.records[i].time && price_by(number_of, raw.records[i]) == Some(
                stock.records[i].price,
            ),
{
    assert forall|i: int| 0 <= i < raw.records.len() implies (#[trigger] stock.records[i]).time
        == raw.records[i].time && price_by(number_of, raw.records[i]) == Some(
        stock.records[i].price,
    ) by {
        assert(record_read(reader, raw.records[i], stock.records[i]));
    }
}

/// With a reader that returns for every text what `number_of` says of it, a
/// raw series fails to be read only where one of its records has a text
/// without a number.
pub proof fn lemma_failure_is_malformed<F: Fn(&str) -> Option<u32>>(
    reader: F,
    number_of: spec_fn(Seq<char>) -> Option<u32>,
    raw: RawSeriesView,
)
    requires
        reads_by(reader, number_of),
        series_unread(reader, raw),
    ensures
        exists|i: int|
            0 <= i < raw.records.len() && price_by(number_of, #[trigger] raw.records[i]) is None,
{
    let i = choose|i: int|
        0 <= i < raw.records.len() && record_unread(reader, #[trigger] raw.records[i]);
    assert(price_by(number_of, raw.records[i]) is None);
}

} // verus!
