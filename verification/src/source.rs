//! Where a document comes from: a remote locator or a local path, and what
//! an HTTP status means for the load.

use vstd::prelude::*;
use vstd::string::StringExecFns;

verus! {

/// The two origins of a document.
#[derive(Clone, Copy, Debug, PartialEq, Eq, Structural)]
pub enum SourceKind {
    /// Fetched with an HTTP GET.
    Remote,
    /// Opened as a file.
    Local,
}

/// Why a run failed as a whole. Each variant holds the text shown to the user.
#[derive(Debug)]
pub enum ScanError {
    /// The local file could not be opened or read.
    Io(String),
    /// The request failed, or the server answered with a status outside 2xx.
    Transport(String),
    /// A text or CDATA node could not be unescaped and decoded.
    Decode(String),
}

impl ScanError {
    /// The text of the error, whatever its variant.
    pub open spec fn detail(self) -> Seq<char> {
        match self {
            ScanError::Io(d) => d@,
            ScanError::Transport(d) => d@,
            ScanError::Decode(d) => d@,
        }
    }

    /// The text of the error, for display.
    pub fn message(&self) -> (r: String)
        ensures
            r@ == self.detail(),
    {
        match self {
            ScanError::Io(d) => d.clone(),
            ScanError::Transport(d) => d.clone(),
            ScanError::Decode(d) => d.clone(),
        }
    }
}

/// A source is remote when it begins, letter for letter, with `http://` or
/// `https://`.
pub open spec fn is_remote(s: Seq<char>) -> bool {
    "http://"@.is_prefix_of(s) || "https://"@.is_prefix_of(s)
}

/// The kind of a source string.
pub open spec fn source_kind(s: Seq<char>) -> SourceKind {
    if is_remote(s) {
        SourceKind::Remote
    } else {
        SourceKind::Local
    }
}

/// Success statuses are 200 to 299.
pub open spec fn is_success(status: u16) -> bool {
    200 <= status <= 299
}

/// The message for a status outside 2xx, from the status as the transport
/// renders it.
pub open spec fn status_message(status_text: Seq<char>) -> Seq<char> {
    "HTTP error: "@ + status_text
}

/// `str::starts_with` with a string pattern: true exactly when the pattern
/// is a prefix of the string. Not proved.
#[verifier::external_body]
fn starts_with(s: &str, prefix: &str) -> (r: bool)
    ensures
        r == prefix@.is_prefix_of(s@),
{
    s.starts_with(prefix)
}

/// Classifies a source string by its prefix. The test is case-sensitive and
/// looks at the start of the string only.
pub fn classify_source(source: &str) -> (r: SourceKind)
    ensures
        r == source_kind(source@),
{
    if starts_with(source, "http://") || starts_with(source, "https://") {
        SourceKind::Remote
    } else {
        SourceKind::Local
    }
}

/// Accepts a response by its status: 2xx goes on to the scan, any other
/// status is a transport error that names the status, and the body is not
/// looked at.
pub fn check_response(status: u16, status_text: &str) -> (r: Result<(), ScanError>)
    ensures
        r is Ok <==> is_success(status),
        r matches Err(e) ==> e is Transport && e.detail() == status_message(status_text@),
{
    if 200 <= status && status <= 299 {
        Ok(())
    } else {
        let mut msg = String::from_str("HTTP error: ");
        msg.append(status_text);
        Err(ScanError::Transport(msg))
    }
}

/// What the prefix test comes to on the characters of the string.
pub proof fn lemma_remote_prefixes(s: Seq<char>)
    ensures
        is_remote(s) <==> {
            ||| s.len() >= 7 && s.subrange(0, 7) == seq!['h', 't', 't', 'p', ':', '/', '/']
            ||| s.len() >= 8 && s.subrange(0, 8) == seq!['h', 't', 't', 'p', 's', ':', '/', '/']
        },
{
    reveal_strlit("http://");
    reveal_strlit("https://");
    assert("http://"@ =~= seq!['h', 't', 't', 'p', ':', '/', '/']);
    assert("https://"@ =~= seq!['h', 't', 't', 'p', 's', ':', '/', '/']);
}

} // verus!
