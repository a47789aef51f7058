//! A deb822 document: the text it was parsed from and its paragraphs.

use crate::error::{locate, report_all, Finding, SourcesError};
use crate::paragraph::{Fields, Paragraph};
use deb822_lossless::Deb822;
use vstd::prelude::*;

verus! {

/// The longest text, in bytes, that the parser can address: it counts
/// positions in 32 bits.
pub const MAX_TEXT_BYTES: usize = 0xFFFF_FFFF;

/// The length of a text in bytes, as `str::len` gives it.
pub open spec fn byte_len(text: Seq<char>) -> usize {
    vstd::utf8::encode_utf8(text).len() as usize
}

/// What `deb822_lossless` makes of a text. Where `Deb822::parse` reports no
/// error, it is the fields that `Paragraph::items` yields for each paragraph
/// that `Deb822::paragraphs` yields on the tree. Otherwise it is the errors
/// that `Parse::positioned_errors` holds: of each its message and the start
/// and end of its range.
pub uninterp spec fn deb822_parse(text: Seq<char>) -> Result<Seq<Fields>, Seq<Finding>>;

/// A result of the parser as plain values.
pub open spec fn parse_view(
    parsed: Result<Vec<Vec<(String, String)>>, Vec<(String, usize, usize)>>,
) -> Result<Seq<Fields>, Seq<Finding>> {
    match parsed {
        Ok(paragraphs) => Ok(paragraphs.deep_view()),
        Err(findings) => Err(findings.deep_view()),
    }
}

/// Parses `text` with `Deb822::parse` and copies out what it found: the
/// fields of every paragraph, or, where `Parse::ok` says that there were
/// errors, the message and range of each.
///
/// The contract claims only that the outcome depends on the text alone. The
/// bound on the length keeps the parser's 32-bit positions from overflowing.
#[verifier::external_body]
fn parse_text(text: &str) -> (parsed: Result<
    Vec<Vec<(String, String)>>,
    Vec<(String, usize, usize)>,
>)
    requires
        text.len() <= MAX_TEXT_BYTES,
    ensures
        parse_view(parsed) == deb822_parse(text@),
{
    let parse = Deb822::parse(text);
    if !parse.ok() {
        let mut findings = Vec::new();
        for error in parse.positioned_errors() {
            let range = error.range;
            findings.push((error.message.clone(), range.start().into(), range.end().into()));
        }
        return Err(findings);
    }
    let mut paragraphs = Vec::new();
    for paragraph in parse.tree().paragraphs() {
        paragraphs.push(paragraph.items().collect());
    }
    Ok(paragraphs)
}

/// The mathematical model of a document.
pub struct DocumentView {
    /// The text that the document was parsed from.
    pub source: Seq<char>,
    /// The paragraphs in document order.
    pub paragraphs: Seq<Fields>,
}

impl DocumentView {
    /// The document is what parsing makes of its source.
    pub open spec fn wf(self) -> bool {
        parsed(self.source) == Some(self)
    }

    /// The text that the document serializes to. A document is never
    /// edited, so this is its source, byte for byte.
    pub open spec fn serialized(self) -> Seq<char> {
        self.source
    }
}

/// The document that parsing makes of a text, and `None` for a text that
/// does not parse: one with a syntax error, or one too long for the parser.
pub open spec fn parsed(text: Seq<char>) -> Option<DocumentView> {
    match deb822_parse(text) {
        Ok(paragraphs) if byte_len(text) <= MAX_TEXT_BYTES => Some(
            DocumentView { source: text, paragraphs },
        ),
        _ => None,
    }
}

/// Parsing and then serializing gives back the text, byte for byte: comments,
/// blank lines, folded values and the order of the fields included.
pub proof fn lemma_round_trip(text: Seq<char>)
    ensures
        parsed(text) matches Some(document) ==> document.wf() && document.serialized() == text,
{
}

/// Serializing and then parsing gives back the document: nothing is lost on
/// the way through text.
pub proof fn lemma_reparse(document: DocumentView)
    ensures
        document.wf() ==> parsed(document.serialized()) == Some(document),
{
}

/// A parsed deb822 text. It cannot be changed once it is made.
#[derive(Debug, PartialEq, Eq)]
pub struct Document {
    source: String,
    paragraphs: Vec<Paragraph>,
}

impl View for Document {
    type V = DocumentView;

    closed spec fn view(&self) -> DocumentView {
        DocumentView {
            source: self.source@,
            paragraphs: Seq::new(self.paragraphs.len() as nat, |i: int| self.paragraphs[i]@),
        }
    }
}

impl Document {
    #[verifier::type_invariant]
    closed spec fn inv(&self) -> bool {
        self@.wf()
    }

    /// Parses a deb822 text.
    ///
    /// Fails with `TooLarge` when the text exceeds `MAX_TEXT_BYTES`, and with
    /// `Parse` when the parser finds syntax errors: each is then reported with
    /// its message, its place and the number of its line. Otherwise the document
    /// holds the text and the paragraphs that the parser reads in it.
    /// Success and each failure come on exactly these texts.
    pub fn parse(text: &str) -> (result: Result<Document, SourcesError>)
        ensures
            match result {
                Ok(document) => parsed(text@) == Some(document@),
                Err(SourcesError::TooLarge) => byte_len(text@) > MAX_TEXT_BYTES,
                Err(SourcesError::Parse(errors)) => {
                    &&& byte_len(text@) <= MAX_TEXT_BYTES
                    &&& deb822_parse(text@) matches Err(findings)
                    &&& report_all(errors@, findings, vstd::utf8::encode_utf8(text@))
                },
                Err(_) => false,
            },
    {
        if text.len() > MAX_TEXT_BYTES {
            return Err(SourcesError::TooLarge);
        }
        match parse_text(text) {
            Err(findings) => Err(SourcesError::Parse(locate(text, &findings))),
            Ok(found) => {
                let ghost raw = found@;
                let ghost all = found.deep_view();
                let mut paragraphs: Vec<Paragraph> = Vec::new();
                for fields in iter: found
                    invariant
                        iter.seq() == raw,
                        all.len() == raw.len(),
                        forall|j: int|
                            0 <= j < raw.len() ==> all[j] == (#[trigger] raw[j]).deep_view(),
                        paragraphs.len() == iter.index(),
                        forall|j: int|
                            0 <= j < paragraphs.len() ==> (#[trigger] paragraphs[j])@ == all[j],
                {
                    paragraphs.push(Paragraph::from_fields(fields));
                }
                assert(Seq::new(paragraphs.len() as nat, |i: int| paragraphs[i]@) =~= all);
                Ok(Document { source: text.to_owned(), paragraphs })
            },
        }
    }

    /// The text of the document: the very text it was parsed from, which
    /// parses to this document again.
    pub fn serialize(&self) -> (text: String)
        ensures
            text@ == self@.serialized(),
            parsed(text@) == Some(self@),
    {
        proof {
            use_type_invariant(self);
        }
        self.source.clone()
    }

    /// The paragraphs in document order.
    pub fn paragraphs(&self) -> (paragraphs: &Vec<Paragraph>)
        ensures
            paragraphs.len() == self@.paragraphs.len(),
            forall|i: int|
                0 <= i < paragraphs.len() ==> (#[trigger] paragraphs[i])@ == self@.paragraphs[i],
    {
        &self.paragraphs
    }

    /// The first paragraph, or `None` when the document has none.
    pub fn first_paragraph(&self) -> (first: Option<&Paragraph>)
        ensures
            match first {
                Some(paragraph) => self@.paragraphs.len() > 0 && paragraph@ == self@.paragraphs[0],
                None => self@.paragraphs.len() == 0,
            },
    {
        if self.paragraphs.len() == 0 {
            None
        } else {
            Some(&self.paragraphs[0])
        }
    }
}

} // verus!
