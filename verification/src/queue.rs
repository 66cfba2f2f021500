//! The durable queue of undelivered reports, as a sequence of record lines.
//!
//! Reading and writing the store is the caller's; which lines count as
//! records, and which remain after a flush, is decided here.

use crate::json::{
    json_member, json_parsed, json_quoted, json_rendered, json_text, json_u64, parse_json,
    quote_json, render_json, value_member, value_text, value_u64,
};
use crate::text::{decimal, decimal_string};
use vstd::prelude::*;
use vstd::string::StringExecFns;

verus! {

/// One queued report with everything needed to deliver it again.
#[derive(Debug, Clone, PartialEq, Eq)]
pub struct QueueRecord {
    /// The serialized report, a JSON document.
    pub report: String,
    /// Where it was to be delivered.
    pub report_url: String,
    /// The delivery timeout at the time it was queued.
    pub timeout_ms: u64,
}

/// The mathematical value of a [`QueueRecord`].
pub ghost struct RecordView {
    pub report: Seq<char>,
    pub report_url: Seq<char>,
    pub timeout_ms: u64,
}

impl View for QueueRecord {
    type V = RecordView;

    open spec fn view(&self) -> RecordView {
        RecordView {
            report: self.report@,
            report_url: self.report_url@,
            timeout_ms: self.timeout_ms,
        }
    }
}

/// The line that stores a record: one JSON object with the report in
/// compact form, the endpoint and the timeout. A record whose report is not
/// a JSON document has no line.
pub open spec fn record_line(rec: RecordView) -> Option<Seq<char>> {
    match json_parsed(rec.report) {
        Ok(doc) => Some(
            "{\"report\":"@ + json_rendered(doc) + ",\"report_url\":"@ + json_quoted(
                rec.report_url,
            ) + ",\"timeout_ms\":"@ + decimal(rec.timeout_ms as nat) + "}"@,
        ),
        Err(_) => None,
    }
}

/// The record that a line stores: the line must be a JSON document with a
/// member `report`, a string member `report_url` and an integer member
/// `timeout_ms`; the report is taken in compact form.
pub open spec fn line_record(line: Seq<char>) -> Option<RecordView> {
    match json_parsed(line) {
        Ok(doc) => match (
            json_member(doc, "report"@),
            json_member(doc, "report_url"@),
            json_member(doc, "timeout_ms"@),
        ) {
            (Some(report), Some(url), Some(timeout)) => match (json_text(url), json_u64(timeout)) {
                (Some(report_url), Some(timeout_ms)) => Some(
                    RecordView { report: json_rendered(report), report_url, timeout_ms },
                ),
                _ => None,
            },
            _ => None,
        },
        Err(_) => None,
    }
}

/// Writes the line that stores a record; `None` where the report is not a
/// JSON document.
pub fn frame_record(rec: &QueueRecord) -> (r: Option<String>)
    ensures
        r is Some == record_line(rec@) is Some,
        r is Some ==> r->0@ == record_line(rec@)->0,
{
    match parse_json(rec.report.as_str()) {
        Ok(doc) => {
            let report = render_json(&doc);
            let url = quote_json(rec.report_url.as_str());
            let timeout = decimal_string(rec.timeout_ms);
            let mut line = String::from_str("{\"report\":");
            line.append(report.as_str());
            line.append(",\"report_url\":");
            line.append(url.as_str());
            line.append(",\"timeout_ms\":");
            line.append(timeout.as_str());
            line.append("}");
            Some(line)
        },
        Err(_) => None,
    }
}

/// Reads the record that a line stores; `None` where the line stores none.
pub fn parse_record(line: &str) -> (r: Option<QueueRecord>)
    ensures
        r is Some == line_record(line@) is Some,
        r is Some ==> r->0@ == line_record(line@)->0,
{
    let doc = match parse_json(line) {
        Ok(doc) => doc,
        Err(_) => {
            return None;
        },
    };
    let report = value_member(&doc, "report");
    let url = value_member(&doc, "report_url");
    let timeout = value_member(&doc, "timeout_ms");
    match (report, url, timeout) {
        (Some(report), Some(url), Some(timeout)) => {
            match (value_text(&url), value_u64(&timeout)) {
                (Some(report_url), Some(timeout_ms)) => Some(
                    QueueRecord { report: render_json(&report), report_url, timeout_ms },
                ),
                _ => None,
            }
        },
        _ => None,
    }
}

/// What a flush did.
#[derive(Debug, Clone, PartialEq, Eq)]
pub struct FlushReport {
    /// Records delivered and removed.
    pub flushed_count: u64,
    /// Records that failed again and remain.
    pub still_queued_count: u64,
    /// The lines that remain in the store, in their old order.
    pub remaining: Vec<String>,
}

/// The characters with the Unicode property White_Space.
pub open spec fn is_space(c: char) -> bool {
    let u = c as u32;
    (0x09 <= u <= 0x0d) || u == 0x20 || u == 0x85 || u == 0xa0 || u == 0x1680 || (0x2000 <= u
        <= 0x200a) || u == 0x2028 || u == 0x2029 || u == 0x202f || u == 0x205f || u == 0x3000
}

/// A line is blank when it holds nothing but white space.
pub open spec fn blank(line: Seq<char>) -> bool {
    forall|i: int| 0 <= i < line.len() ==> is_space(#[trigger] line[i])
}

/// The texts of the lines that are not blank, in order.
pub open spec fn records_of(lines: Seq<String>) -> Seq<Seq<char>>
    decreases lines.len(),
{
    if lines.len() == 0 {
        Seq::empty()
    } else if blank(lines.last()@) {
        records_of(lines.drop_last())
    } else {
        records_of(lines.drop_last()).push(lines.last()@)
    }
}

/// How many of the flags are set.
pub open spec fn count_set(flags: Seq<bool>) -> nat
    decreases flags.len(),
{
    if flags.len() == 0 {
        0
    } else {
        count_set(flags.drop_last()) + if flags.last() {
            1nat
        } else {
            0nat
        }
    }
}

/// The texts of the records that were not delivered, in order.
pub open spec fn kept(records: Seq<String>, delivered: Seq<bool>) -> Seq<Seq<char>>
    recommends
        records.len() == delivered.len(),
    decreases records.len(),
{
    if records.len() == 0 || delivered.len() == 0 {
        Seq::empty()
    } else if delivered.last() {
        kept(records.drop_last(), delivered.drop_last())
    } else {
        kept(records.drop_last(), delivered.drop_last()).push(records.last()@)
    }
}

/// The texts of a list of lines.
pub open spec fn texts(lines: Seq<String>) -> Seq<Seq<char>> {
    Seq::new(lines.len(), |i: int| lines[i]@)
}

/// Whether a character is white space.
pub fn char_is_space(c: char) -> (r: bool)
    ensures
        r == is_space(c),
{
    let u: u32 = c as u32;
    (0x09 <= u && u <= 0x0d) || u == 0x20 || u == 0x85 || u == 0xa0 || u == 0x1680 || (0x2000 <= u
        && u <= 0x200a) || u == 0x2028 || u == 0x2029 || u == 0x202f || u == 0x205f || u == 0x3000
}

/// Whether a line holds nothing but white space.
pub fn is_blank(line: &str) -> (r: bool)
    ensures
        r == blank(line@),
{
    let n = line.unicode_len();
    let mut i: usize = 0;
    while i < n
        invariant
            n == line@.len(),
            i <= n,
            forall|j: int| 0 <= j < i ==> is_space(#[trigger] line@[j]),
        decreases n - i,
    {
        if !char_is_space(line.get_char(i)) {
            return false;
        }
        i = i + 1;
    }
    true
}

/// The records among the lines of a store: every line that is not blank,
/// in order.
pub fn pending_records(lines: &Vec<String>) -> (out: Vec<String>)
    ensures
        texts(out@) == records_of(lines@),
{
    let mut out: Vec<String> = Vec::new();
    let mut i: usize = 0;
    while i < lines.len()
        invariant
            i <= lines@.len(),
            texts(out@) =~= records_of(lines@.take(i as int)),
        decreases lines@.len() - i,
    {
        proof {
            assert(lines@.take(i + 1).drop_last() =~= lines@.take(i as int));
            assert(lines@.take(i + 1).last() == lines@[i as int]);
        }
        if !is_blank(lines[i].as_str()) {
            out.push(lines[i].clone());
        }
        i = i + 1;
    }
    proof {
        assert(lines@.take(lines@.len() as int) =~= lines@);
    }
    out
}

/// Every record is either delivered or kept.
pub proof fn lemma_kept_partition(records: Seq<String>, delivered: Seq<bool>)
    requires
        records.len() == delivered.len(),
    ensures
        kept(records, delivered).len() + count_set(delivered) == records.len(),
    decreases records.len(),
{
    if records.len() > 0 {
        lemma_kept_partition(records.drop_last(), delivered.drop_last());
    }
}

/// Where every record was delivered, none remains.
pub proof fn lemma_all_delivered_empties(records: Seq<String>, delivered: Seq<bool>)
    requires
        records.len() == delivered.len(),
        forall|i: int| 0 <= i < delivered.len() ==> delivered[i],
    ensures
        kept(records, delivered).len() == 0,
        count_set(delivered) == records.len(),
    decreases records.len(),
{
    if records.len() > 0 {
        let d = delivered.drop_last();
        assert(delivered[delivered.len() - 1]);
        assert forall|i: int| 0 <= i < d.len() implies d[i] by {
            assert(d[i] == delivered[i]);
        }
        lemma_all_delivered_empties(records.drop_last(), d);
    }
}

/// Where no record was delivered, all remain, unchanged and in order.
pub proof fn lemma_none_delivered_keeps_all(records: Seq<String>, delivered: Seq<bool>)
    requires
        records.len() == delivered.len(),
        forall|i: int| 0 <= i < delivered.len() ==> !delivered[i],
    ensures
        kept(records, delivered) == texts(records),
        count_set(delivered) == 0,
    decreases records.len(),
{
    if records.len() > 0 {
        let d = delivered.drop_last();
        assert(!delivered[delivered.len() - 1]);
        assert forall|i: int| 0 <= i < d.len() implies !d[i] by {
            assert(d[i] == delivered[i]);
        }
        lemma_none_delivered_keeps_all(records.drop_last(), d);
        assert(kept(records, delivered) =~= texts(records));
    } else {
        assert(kept(records, delivered) =~= texts(records));
    }
}

/// Settles a flush: `delivered[i]` says whether record `i` was delivered
/// again. Delivered records leave the store; the others remain in order.
pub fn settle_flush(records: Vec<String>, delivered: &Vec<bool>) -> (r: FlushReport)
    requires
        records@.len() == delivered@.len(),
    ensures
        texts(r.remaining@) == kept(records@, delivered@),
        r.flushed_count == count_set(delivered@),
        r.still_queued_count == r.remaining@.len(),
        r.flushed_count + r.still_queued_count == records@.len(),
{
    let mut remaining: Vec<String> = Vec::new();
    let mut flushed: u64 = 0;
    let mut still: u64 = 0;
    let mut i: usize = 0;
    while i < records.len()
        invariant
            records@.len() == delivered@.len(),
            i <= records@.len(),
            texts(remaining@) =~= kept(records@.take(i as int), delivered@.take(i as int)),
            flushed == count_set(delivered@.take(i as int)),
            still == remaining@.len(),
            flushed + still == i,
        decreases records@.len() - i,
    {
        proof {
            assert(records@.take(i + 1).drop_last() =~= records@.take(i as int));
            assert(delivered@.take(i + 1).drop_last() =~= delivered@.take(i as int));
            assert(records@.take(i + 1).last() == records@[i as int]);
            assert(delivered@.take(i + 1).last() == delivered@[i as int]);
        }
        if delivered[i] {
            flushed = flushed + 1;
        } else {
            remaining.push(records[i].clone());
            still = still + 1;
        }
        i = i + 1;
    }
    proof {
        assert(records@.take(records@.len() as int) =~= records@);
        assert(delivered@.take(delivered@.len() as int) =~= delivered@);
    }
    FlushReport { flushed_count: flushed, still_queued_count: still, remaining }
}

} // verus!
