//! The output lines: two templates for flagged nodes, one for a tokenizer
//! error with its byte offset in decimal.

use vstd::prelude::*;
use vstd::string::StringExecFns;

verus! {

/// The two kinds of node that carry text.
#[derive(Clone, Copy, Debug, PartialEq, Eq, Structural)]
pub enum NodeKind {
    /// Character data between tags.
    Text,
    /// The content of a CDATA section.
    CData,
}

/// The decimal digit for a value below ten.
pub open spec fn digit(d: nat) -> char {
    if d == 0 {
        '0'
    } else if d == 1 {
        '1'
    } else if d == 2 {
        '2'
    } else if d == 3 {
        '3'
    } else if d == 4 {
        '4'
    } else if d == 5 {
        '5'
    } else if d == 6 {
        '6'
    } else if d == 7 {
        '7'
    } else if d == 8 {
        '8'
    } else {
        '9'
    }
}

/// A number in decimal, without sign or leading zeros.
pub open spec fn decimal(n: nat) -> Seq<char>
    decreases n,
{
    if n < 10 {
        seq![digit(n)]
    } else {
        decimal(n / 10).push(digit(n % 10))
    }
}

/// What stands before the text of a flagged node.
pub open spec fn node_prefix(kind: NodeKind) -> Seq<char> {
    match kind {
        NodeKind::Text => "Control character found: "@,
        NodeKind::CData => "Control character found in CDATA: "@,
    }
}

/// The line for a flagged node: the prefix of its kind, then its whole
/// decoded text.
pub open spec fn node_line(kind: NodeKind, text: Seq<char>) -> Seq<char> {
    node_prefix(kind) + text
}

/// The line for a tokenizer error at a byte offset.
pub open spec fn error_line(position: nat, detail: Seq<char>) -> Seq<char> {
    "Error at position "@ + decimal(position) + ": "@ + detail
}

fn digit_str(d: usize) -> (r: &'static str)
    requires
        d < 10,
    ensures
        r@ == seq![digit(d as nat)],
{
    proof {
        reveal_strlit("0");
        reveal_strlit("1");
        reveal_strlit("2");
        reveal_strlit("3");
        reveal_strlit("4");
        reveal_strlit("5");
        reveal_strlit("6");
        reveal_strlit("7");
        reveal_strlit("8");
        reveal_strlit("9");
    }
    let r = if d == 0 {
        "0"
    } else if d == 1 {
        "1"
    } else if d == 2 {
        "2"
    } else if d == 3 {
        "3"
    } else if d == 4 {
        "4"
    } else if d == 5 {
        "5"
    } else if d == 6 {
        "6"
    } else if d == 7 {
        "7"
    } else if d == 8 {
        "8"
    } else {
        "9"
    };
    assert(r@ =~= seq![digit(d as nat)]);
    r
}

/// Writes a number in decimal.
pub fn decimal_string(n: usize) -> (r: String)
    ensures
        r@ == decimal(n as nat),
    decreases n,
{
    if n < 10 {
        String::from_str(digit_str(n))
    } else {
        let mut s = decimal_string(n / 10);
        s.append(digit_str(n % 10));
        assert(s@ =~= decimal(n as nat));
        s
    }
}

/// Renders the line for a flagged node.
pub fn render_node(kind: NodeKind, text: &str) -> (r: String)
    ensures
        r@ == node_line(kind, text@),
{
    let mut line = match kind {
        NodeKind::Text => String::from_str("Control character found: "),
        NodeKind::CData => String::from_str("Control character found in CDATA: "),
    };
    line.append(text);
    line
}

/// Renders the line for a tokenizer error.
pub fn render_error(position: usize, detail: &str) -> (r: String)
    ensures
        r@ == error_line(position as nat, detail@),
{
    let mut line = String::from_str("Error at position ");
    let number = decimal_string(position);
    line.append(number.as_str());
    line.append(": ");
    line.append(detail);
    line
}

} // verus!
