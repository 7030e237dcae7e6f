//! What holds of every scan, stated over the views of events and reports.

use vstd::prelude::*;
use crate::chars::{has_flagged, is_whitespace, only_formatting_controls};
use crate::render::{error_line, NodeKind};
use crate::scan::{
    emitted, event_ends, event_line, is_scan_of, node_report, reads, text_report,
    unescaped_text, EventView, ReportView,
};

verus! {

/// The event, if it is a text or CDATA node that decodes, decodes to a text
/// whose only controls are tab, line feed and carriage return.
pub open spec fn clean_event(e: EventView) -> bool {
    match e {
        EventView::Text(raw) => unescaped_text(raw) matches Some(text)
            ==> only_formatting_controls(text),
        EventView::CData(raw) => unescaped_text(raw) matches Some(text)
            ==> only_formatting_controls(text),
        _ => true,
    }
}

proof fn lemma_quiet_prefix(events: Seq<EventView>, k: nat)
    requires
        k <= events.len(),
        forall|i: int| 0 <= i < k ==> event_line(#[trigger] events[i]) is None,
    ensures
        emitted(events, k) == Seq::<Seq<char>>::empty(),
    decreases k,
{
    if k > 0 {
        lemma_quiet_prefix(events, (k - 1) as nat);
    }
}

/// A text or CDATA node whose only controls are tab, line feed and carriage
/// return puts out no line.
pub proof fn lemma_clean_node_silent(e: EventView)
    requires
        clean_event(e),
    ensures
        e is Text || e is CData ==> event_line(e) is None,
{
}

/// A scan of a document in which every text and CDATA node has no control
/// but tab, line feed and carriage return puts out no line for any node:
/// its output is empty, or the one line of the tokenizer error that ended it.
pub proof fn lemma_clean_scan_silent(events: Seq<EventView>, n: nat)
    requires
        reads(events, n),
        forall|i: int| 0 <= i < n ==> clean_event(#[trigger] events[i]),
    ensures
        emitted(events, n) == match (if n > 0 {
            events[n - 1]
        } else {
            EventView::Other
        }) {
            EventView::Malformed { position, detail } => seq![error_line(position, detail)],
            _ => Seq::<Seq<char>>::empty(),
        },
{
    if n > 0 {
        let k = (n - 1) as nat;
        assert forall|i: int| 0 <= i < k implies event_line(#[trigger] events[i]) is None by {
            assert(!event_ends(events[i]));
            assert(clean_event(events[i]));
        }
        lemma_quiet_prefix(events, k);
        assert(clean_event(events[n - 1]));
        match events[n - 1] {
            EventView::Malformed { position, detail } => {
                assert(emitted(events, n) =~= seq![error_line(position, detail)]);
            },
            _ => {},
        }
    }
}

/// A text or CDATA node whose decoded text holds a flagged code point puts
/// out exactly one line: the prefix of its kind, then the whole decoded text.
pub proof fn lemma_flagged_node_reported(events: Seq<EventView>, i: nat, text: Seq<char>)
    requires
        i < events.len(),
        has_flagged(text),
        match events[i as int] {
            EventView::Text(raw) => unescaped_text(raw) == Some(text),
            EventView::CData(raw) => unescaped_text(raw) == Some(text),
            _ => false,
        },
    ensures
        events[i as int] is Text ==> emitted(events, i + 1) == emitted(events, i).push(
            "Control character found: "@ + text,
        ),
        events[i as int] is CData ==> emitted(events, i + 1) == emitted(events, i).push(
            "Control character found in CDATA: "@ + text,
        ),
{
}

/// A text of whitespace alone is never reported.
pub proof fn lemma_whitespace_only_silent(kind: NodeKind, text: Seq<char>)
    requires
        forall|i: int| 0 <= i < text.len() ==> is_whitespace(#[trigger] text[i]),
    ensures
        text_report(kind, text) is None,
{
}

/// Two scans of the same events read as many of them, put out the same
/// lines and end alike.
pub proof fn lemma_scan_determined(events: Seq<EventView>, a: ReportView, b: ReportView)
    requires
        is_scan_of(events, a),
        is_scan_of(events, b),
    ensures
        a == b,
{
    let n = a.consumed;
    let m = b.consumed;
    assert(n == m) by {
        if n < m {
            assert(event_ends(events[n - 1]));
        }
        if m < n {
            assert(event_ends(events[m - 1]));
        }
    }
}

/// The report of a node depends on its raw bytes only through the text they
/// decode to: a literal code point and a character reference to it are
/// reported alike.
pub proof fn lemma_same_text_same_report(kind: NodeKind, a: Seq<u8>, b: Seq<u8>)
    requires
        unescaped_text(a) == unescaped_text(b),
    ensures
        node_report(kind, a) == node_report(kind, b),
{
}

} // verus!
