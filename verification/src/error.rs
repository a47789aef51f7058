//! The ways in which loading a repository definition can fail.

use vstd::prelude::*;
use vstd::string::StringSliceAdditionalSpecFns;

verus! {

/// A syntax error as the parser reports it: what is wrong, and the bytes of
/// the text at which it stands, from `start` up to `end`.
pub type Finding = (Seq<char>, usize, usize);

/// How many line feeds a run of bytes holds.
pub open spec fn line_feeds(bytes: Seq<u8>) -> nat
    decreases bytes.len(),
{
    if bytes.len() == 0 {
        0
    } else {
        line_feeds(bytes.drop_last()) + if bytes.last() == 10u8 {
            1nat
        } else {
            0nat
        }
    }
}

/// The number of the line that holds the byte at `offset`, counted from one.
/// An offset past the end counts as the end.
pub open spec fn line_at(bytes: Seq<u8>, offset: usize) -> nat {
    if offset <= bytes.len() {
        1 + line_feeds(bytes.take(offset as int))
    } else {
        1 + line_feeds(bytes)
    }
}

/// There are no more line feeds than bytes.
pub proof fn lemma_line_feeds_bound(bytes: Seq<u8>)
    ensures
        line_feeds(bytes) <= bytes.len(),
    decreases bytes.len(),
{
    if bytes.len() > 0 {
        lemma_line_feeds_bound(bytes.drop_last());
    }
}

/// One syntax error in a text.
#[derive(Debug, Clone, PartialEq, Eq)]
pub struct SyntaxError {
    /// What the parser found wrong.
    pub message: String,
    /// The number of the line on which the error starts, counted from one.
    pub line: u64,
    /// The offset in bytes at which the error starts.
    pub start: usize,
    /// The offset in bytes at which the error ends.
    pub end: usize,
}

impl SyntaxError {
    /// The error reports `finding`, located in a text of these bytes.
    pub open spec fn reports(&self, finding: Finding, bytes: Seq<u8>) -> bool {
        &&& self.message@ == finding.0
        &&& self.start == finding.1
        &&& self.end == finding.2
        &&& self.line == line_at(bytes, finding.1)
    }
}

/// `errors` reports `findings`, one for one and in the same order.
pub open spec fn report_all(
    errors: Seq<SyntaxError>,
    findings: Seq<Finding>,
    bytes: Seq<u8>,
) -> bool {
    &&& errors.len() == findings.len()
    &&& forall|i: int| 0 <= i < errors.len() ==> (#[trigger] errors[i]).reports(findings[i], bytes)
}

/// The number of the line of `text` that holds the byte at `offset`, counted
/// from one. Lines end at line feeds. The text must be short enough for the
/// number of its last line to fit.
pub fn line_number(text: &str, offset: usize) -> (line: u64)
    requires
        text.len() < u64::MAX,
    ensures
        line == line_at(text.spec_bytes(), offset),
{
    let bytes = text.as_bytes();
    let end = if offset <= bytes.len() {
        offset
    } else {
        bytes.len()
    };
    let mut line: u64 = 1;
    let mut i: usize = 0;
    while i < end
        invariant
            i <= end <= bytes.len() < u64::MAX,
            line == 1 + line_feeds(bytes@.take(i as int)),
        decreases end - i,
    {
        proof {
            lemma_line_feeds_bound(bytes@.take(i as int));
            assert(bytes@.take(i + 1).drop_last() =~= bytes@.take(i as int));
        }
        if bytes[i] == 10u8 {
            line += 1;
        }
        i += 1;
    }
    assert(bytes@.take(bytes.len() as int) =~= bytes@);
    line
}

/// Reports what the parser found in `text`: each finding with the number of
/// the line on which it starts, in the order of the findings.
pub fn locate(text: &str, findings: &Vec<(String, usize, usize)>) -> (errors: Vec<SyntaxError>)
    requires
        text.len() < u64::MAX,
    ensures
        report_all(errors@, findings.deep_view(), text.spec_bytes()),
{
    let mut errors: Vec<SyntaxError> = Vec::new();
    let mut i: usize = 0;
    while i < findings.len()
        invariant
            i <= findings.len(),
            text.len() < u64::MAX,
            report_all(errors@, findings.deep_view().take(i as int), text.spec_bytes()),
        decreases findings.len() - i,
    {
        let start = findings[i].1;
        errors.push(
            SyntaxError {
                message: findings[i].0.clone(),
                line: line_number(text, start),
                start,
                end: findings[i].2,
            },
        );
        i += 1;
    }
    assert(findings.deep_view().take(findings.len() as int) =~= findings.deep_view());
    errors
}

/// Why no repository definition could be had from a text or a file.
#[derive(Debug, Clone, PartialEq, Eq)]
pub enum SourcesError {
    /// The text is not well-formed deb822; the syntax errors are inside.
    Parse(Vec<SyntaxError>),
    /// The text is well-formed but holds no paragraph.
    EmptyDocument,
    /// The text is longer than the parser can address.
    TooLarge,
    /// The file could not be read; the message says why.
    Io(String),
}

} // verus!
