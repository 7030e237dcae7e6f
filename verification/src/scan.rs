//! The scan: what one tokenizer event leads to, and what a sequence of them
//! leads to.
//!
//! The tokenizer reads the stream and hands over its events one by one, the
//! raw bytes of text and CDATA nodes untouched. `step` decodes such a node,
//! applies the character predicate and says whether to go on. `scan_events`
//! does the same over events held in memory.

use vstd::prelude::*;
use crate::chars::{contains_control_chars, has_flagged};
use crate::render::{error_line, node_line, render_error, render_node, NodeKind};
use crate::source::ScanError;

verus! {

/// One event of the tokenizer, as far as the scan reads it.
#[derive(Debug)]
pub enum RawEvent {
    /// Character data, trimmed, still escaped.
    Text(Vec<u8>),
    /// The content of a CDATA section.
    CData(Vec<u8>),
    /// The stream has ended.
    Eof,
    /// The tokenizer could not go on: the byte offset it had reached and its
    /// description of the error.
    Malformed { position: usize, detail: String },
    /// A tag, a comment, a processing instruction, a declaration.
    Other,
}

/// Whether the scan goes on after an event.
#[derive(Clone, Copy, Debug, PartialEq, Eq, Structural)]
pub enum Verdict {
    /// More events are to be read.
    Proceed,
    /// The end of the stream was reached.
    Completed,
    /// The tokenizer reported an error; nothing more is read.
    Aborted,
}

/// What one event leads to: at most one output line, and the verdict.
#[derive(Debug)]
pub struct Step {
    pub line: Option<String>,
    pub verdict: Verdict,
}

/// What a sequence of events leads to.
#[derive(Debug)]
pub struct ScanReport {
    /// The output lines, in the order of the events that caused them.
    pub lines: Vec<String>,
    /// How many events were read, the one that ended the scan included.
    pub consumed: usize,
    /// How the scan ended: a verdict, or the decode error that stopped it.
    pub outcome: Result<Verdict, ScanError>,
}

/// An event as the contracts read it.
pub enum EventView {
    Text(Seq<u8>),
    CData(Seq<u8>),
    Eof,
    Malformed { position: nat, detail: Seq<char> },
    Other,
}

/// A step as the contracts read it.
pub struct StepView {
    pub line: Option<Seq<char>>,
    pub verdict: Verdict,
}

/// A report as the contracts read it. The ending is the verdict of the last
/// event read, or `None` where a decode error stopped the scan.
pub struct ReportView {
    pub lines: Seq<Seq<char>>,
    pub consumed: nat,
    pub ending: Option<Verdict>,
}

impl View for RawEvent {
    type V = EventView;

    open spec fn view(&self) -> EventView {
        match *self {
            RawEvent::Text(raw) => EventView::Text(raw@),
            RawEvent::CData(raw) => EventView::CData(raw@),
            RawEvent::Eof => EventView::Eof,
            RawEvent::Malformed { position, detail } => EventView::Malformed {
                position: position as nat,
                detail: detail@,
            },
            RawEvent::Other => EventView::Other,
        }
    }
}

impl View for Step {
    type V = StepView;

    open spec fn view(&self) -> StepView {
        StepView {
            line: match self.line {
                Some(s) => Some(s@),
                None => None,
            },
            verdict: self.verdict,
        }
    }
}

impl View for ScanReport {
    type V = ReportView;

    open spec fn view(&self) -> ReportView {
        ReportView {
            lines: Seq::new(self.lines@.len(), |i: int| self.lines@[i]@),
            consumed: self.consumed as nat,
            ending: match self.outcome {
                Ok(verdict) => Some(verdict),
                Err(_) => None,
            },
        }
    }
}

/// The views of the events, in order.
pub open spec fn event_views(events: Seq<RawEvent>) -> Seq<EventView> {
    Seq::new(events.len(), |i: int| events[i]@)
}

/// `quick_xml::Error`, opaque here: it is carried from the decoder to
/// `describe` and nothing is read of it.
#[verifier::external_type_specification]
#[verifier::external_body]
pub struct ExXmlError(quick_xml::Error);

/// The text that the XML library makes of the raw bytes of a node: the bytes
/// read as UTF-8, with the predefined entities and the numeric character
/// references replaced. `None` where the bytes are not UTF-8 or a reference
/// is malformed.
pub uninterp spec fn unescaped_text(raw: Seq<u8>) -> Option<Seq<char>>;

/// `quick_xml::events::BytesText::unescape_and_decode` on the given bytes.
/// The reader it takes is only asked to decode, which without a declared
/// encoding is a check for UTF-8, so the result depends on the bytes alone;
/// the contract gives that result its name. Not proved.
#[verifier::external_body]
fn unescape_and_decode(raw: &[u8]) -> (r: Result<String, quick_xml::Error>)
    ensures
        match r {
            Ok(text) => unescaped_text(raw@) == Some(text@),
            Err(_) => unescaped_text(raw@) is None,
        },
{
    let reader = quick_xml::Reader::from_reader(raw);
    quick_xml::events::BytesText::from_escaped(raw).unescape_and_decode(&reader)
}

/// The `Debug` rendering of a `quick_xml::Error`, through `format!`. Nothing
/// is claimed of the text.
#[verifier::external_body]
fn describe(e: &quick_xml::Error) -> String {
    format!("{:?}", e)
}

/// The line for a node with the given decoded text, if it is flagged.
pub open spec fn text_report(kind: NodeKind, text: Seq<char>) -> Option<Seq<char>> {
    if has_flagged(text) {
        Some(node_line(kind, text))
    } else {
        None
    }
}

/// The line for a node with the given raw bytes, if they decode to a flagged
/// text.
pub open spec fn node_report(kind: NodeKind, raw: Seq<u8>) -> Option<Seq<char>> {
    match unescaped_text(raw) {
        Some(text) => text_report(kind, text),
        None => None,
    }
}

/// The line that an event puts out, if any.
pub open spec fn event_line(e: EventView) -> Option<Seq<char>> {
    match e {
        EventView::Text(raw) => node_report(NodeKind::Text, raw),
        EventView::CData(raw) => node_report(NodeKind::CData, raw),
        EventView::Malformed { position, detail } => Some(error_line(position, detail)),
        EventView::Eof => None,
        EventView::Other => None,
    }
}

/// An event fails the run when it is a text or CDATA node that cannot be
/// decoded.
pub open spec fn event_fails(e: EventView) -> bool {
    match e {
        EventView::Text(raw) => unescaped_text(raw) is None,
        EventView::CData(raw) => unescaped_text(raw) is None,
        _ => false,
    }
}

/// The verdict after an event that does not fail.
pub open spec fn event_verdict(e: EventView) -> Verdict {
    match e {
        EventView::Eof => Verdict::Completed,
        EventView::Malformed { .. } => Verdict::Aborted,
        _ => Verdict::Proceed,
    }
}

/// An event ends the scan when it fails or its verdict is not to proceed.
pub open spec fn event_ends(e: EventView) -> bool {
    event_fails(e) || event_verdict(e) != Verdict::Proceed
}

/// The lines that the first `n` events put out, in order.
pub open spec fn emitted(events: Seq<EventView>, n: nat) -> Seq<Seq<char>>
    decreases n,
{
    if n == 0 || n > events.len() {
        Seq::empty()
    } else {
        match event_line(events[n - 1]) {
            Some(line) => emitted(events, (n - 1) as nat).push(line),
            None => emitted(events, (n - 1) as nat),
        }
    }
}

/// A scan reads `n` of the events: none before the last of them ends the
/// scan, and the last of them does unless the events ran out.
pub open spec fn reads(events: Seq<EventView>, n: nat) -> bool {
    &&& n <= events.len()
    &&& forall|j: int| 0 <= j < n - 1 ==> !event_ends(#[trigger] events[j])
    &&& n < events.len() ==> n > 0 && event_ends(events[n - 1])
}

/// How a scan that read `n` events ended: the verdict of the last event, or
/// `None` where that event failed. With no event read the scan is still to
/// proceed.
pub open spec fn ending(events: Seq<EventView>, n: nat) -> Option<Verdict> {
    if n == 0 || n > events.len() {
        Some(Verdict::Proceed)
    } else if event_fails(events[n - 1]) {
        None
    } else {
        Some(event_verdict(events[n - 1]))
    }
}

/// The report is that of a scan of the events: it read as many of them as a
/// scan reads, holds the lines that those put out, and ends as the last of
/// them says.
pub open spec fn is_scan_of(events: Seq<EventView>, report: ReportView) -> bool {
    &&& reads(events, report.consumed)
    &&& report.lines == emitted(events, report.consumed)
    &&& report.ending == ending(events, report.consumed)
}

/// Unescapes and decodes the raw bytes of a node. Fails with a decode error
/// exactly where the XML library cannot make a text of them.
pub fn decode_text(raw: &[u8]) -> (r: Result<String, ScanError>)
    ensures
        match r {
            Ok(text) => unescaped_text(raw@) == Some(text@),
            Err(e) => unescaped_text(raw@) is None && e is Decode,
        },
{
    match unescape_and_decode(raw) {
        Ok(text) => Ok(text),
        Err(e) => Err(ScanError::Decode(describe(&e))),
    }
}

/// Applies the predicate to the decoded text of a node: the line to put out
/// if the text holds a flagged code point, and nothing otherwise.
pub fn inspect_text(kind: NodeKind, text: &str) -> (r: Option<String>)
    ensures
        match r {
            Some(line) => text_report(kind, text@) == Some(line@),
            None => text_report(kind, text@) is None,
        },
{
    if contains_control_chars(text) {
        Some(render_node(kind, text))
    } else {
        None
    }
}

/// Takes one event of the tokenizer. A text or CDATA node is decoded and
/// inspected; a node that cannot be decoded fails the run. The end of the
/// stream completes the scan; a tokenizer error puts out its line and aborts
/// it; any other event is passed over.
pub fn step(event: &RawEvent) -> (r: Result<Step, ScanError>)
    ensures
        match r {
            Ok(s) => !event_fails(event@) && s@ == (StepView {
                line: event_line(event@),
                verdict: event_verdict(event@),
            }),
            Err(e) => event_fails(event@) && e is Decode,
        },
{
    match event {
        RawEvent::Text(raw) => {
            let text = decode_text(raw.as_slice())?;
            Ok(Step { line: inspect_text(NodeKind::Text, text.as_str()), verdict: Verdict::Proceed })
        },
        RawEvent::CData(raw) => {
            let text = decode_text(raw.as_slice())?;
            Ok(Step { line: inspect_text(NodeKind::CData, text.as_str()), verdict: Verdict::Proceed })
        },
        RawEvent::Eof => Ok(Step { line: None, verdict: Verdict::Completed }),
        RawEvent::Malformed { position, detail } => Ok(
            Step {
                line: Some(render_error(*position, detail.as_str())),
                verdict: Verdict::Aborted,
            },
        ),
        RawEvent::Other => Ok(Step { line: None, verdict: Verdict::Proceed }),
    }
}

/// Scans events held in memory, in order, up to and including the first
/// that ends the scan. The lines are those of the events read; no event
/// after the end is looked at. Where the events run out before the scan
/// ends, the verdict is to proceed. The outcome is an error exactly where
/// the last event read could not be decoded.
pub fn scan_events(events: &Vec<RawEvent>) -> (r: ScanReport)
    ensures
        is_scan_of(event_views(events@), r@),
        r.outcome matches Err(e) ==> e is Decode,
{
    let mut report = ScanReport { lines: Vec::new(), consumed: 0, outcome: Ok(Verdict::Proceed) };
    let ghost views = event_views(events@);
    assert(report@.lines =~= emitted(views, 0));
    while report.consumed < events.len() && is_proceed(&report.outcome)
        invariant
            views == event_views(events@),
            report.consumed <= events.len(),
            forall|j: int| 0 <= j < report.consumed - 1 ==> !event_ends(#[trigger] views[j]),
            report.consumed > 0 && report@.ending == Some(Verdict::Proceed) ==> !event_ends(
                views[report.consumed - 1],
            ),
            report@.lines == emitted(views, report.consumed as nat),
            report@.ending == ending(views, report.consumed as nat),
            report.outcome matches Err(e) ==> e is Decode,
        decreases events.len() - report.consumed,
    {
        let ghost before = report@.lines;
        let ghost i = report.consumed as int;
        assert(views[i] == events@[i]@);
        match step(&events[report.consumed]) {
            Ok(taken) => {
                report.outcome = Ok(taken.verdict);
                if let Some(line) = taken.line {
                    report.lines.push(line);
                    assert(report@.lines =~= before.push(line@));
                } else {
                    assert(report@.lines =~= before);
                }
            },
            Err(e) => {
                report.outcome = Err(e);
                assert(report@.lines =~= before);
            },
        }
        report.consumed = report.consumed + 1;
    }
    report
}

fn is_proceed(outcome: &Result<Verdict, ScanError>) -> (r: bool)
    ensures
        r == (*outcome == Ok::<Verdict, ScanError>(Verdict::Proceed)),
{
    match outcome {
        Ok(Verdict::Proceed) => true,
        _ => false,
    }
}

} // verus!
