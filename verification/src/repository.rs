//! A repository definition: one paragraph of a `.sources` file, mapped onto
//! the fixed schema, and its rendering back to deb822 text.

use crate::document::{byte_len, deb822_parse, parsed, Document, MAX_TEXT_BYTES};
use crate::error::{report_all, SourcesError};
use crate::field::{lemma_label_is_one_line, lemma_labels_differ, Field, FIELD_COUNT};
use crate::paragraph::{
    field_line, first_value, has_no_field, lemma_absent_iff_no_field,
    lemma_field_line_is_one_line, lemma_first_value_push, lemma_line_count_add,
    lemma_other_field_is_ignored, line_count, rendered, Fields, Paragraph,
};
use vstd::prelude::*;
use vstd::string::StringExecFns;

verus! {

/// One APT repository definition. Every attribute is either absent or the
/// raw text of the field; nothing is checked or converted.
#[derive(Debug, Clone, PartialEq, Eq)]
pub struct Deb822Repository {
    /// The path of the file that the definition was read from.
    pub filepath: String,
    /// The field `Enabled`.
    pub enabled: Option<String>,
    /// The field `Types`.
    pub types: Option<String>,
    /// The field `URIs`.
    pub uris: Option<String>,
    /// The field `Suites`.
    pub suites: Option<String>,
    /// The field `Components`.
    pub components: Option<String>,
    /// The field `Architectures`.
    pub architectures: Option<String>,
    /// The field `Languages`.
    pub languages: Option<String>,
    /// The field `Targets`.
    pub targets: Option<String>,
    /// The field `PDiffs`.
    pub pdiffs: Option<String>,
    /// The field `By-Hash`.
    pub by_hash: Option<String>,
    /// The field `Allow-Insecure`.
    pub allow_insecure: Option<String>,
    /// The field `Allow-Weak`.
    pub allow_weak: Option<String>,
    /// The field `Downgrade-To-Insecure`.
    pub allow_downgrade_to_insecure: Option<String>,
    /// The field `Trusted`.
    pub trusted: Option<String>,
    /// The field `Signed-By`.
    pub signed_by: Option<String>,
    /// The field `Check-Valid-Until`.
    pub check_valid_until: Option<String>,
    /// The field `Valid-Until-Min`.
    pub valid_until_min: Option<String>,
    /// The field `Check-Date`.
    pub check_date: Option<String>,
    /// The field `Date-Max-Future`.
    pub date_max_future: Option<String>,
    /// The field `InRelease-Path`.
    pub inrelease_path: Option<String>,
    /// The field `Snapshot`.
    pub snapshot: Option<String>,
    /// The field `X-Repolib-Name`.
    pub repolib_name: Option<String>,
    /// The field `X-Repolib-ID`.
    pub repolib_id: Option<String>,
    /// The field `X-Repolib-Default-Mirror`.
    pub repolib_default_mirror: Option<String>,
}

impl Default for Deb822Repository {
    /// A definition without a path and without any attribute.
    fn default() -> (record: Deb822Repository)
        ensures
            record.filepath@ == Seq::<char>::empty(),
            forall|field: Field| (#[trigger] record.value(field)) is None,
    {
        Deb822Repository {
            filepath: String::new(),
            enabled: None,
            types: None,
            uris: None,
            suites: None,
            components: None,
            architectures: None,
            languages: None,
            targets: None,
            pdiffs: None,
            by_hash: None,
            allow_insecure: None,
            allow_weak: None,
            allow_downgrade_to_insecure: None,
            trusted: None,
            signed_by: None,
            check_valid_until: None,
            valid_until_min: None,
            check_date: None,
            date_max_future: None,
            inrelease_path: None,
            snapshot: None,
            repolib_name: None,
            repolib_id: None,
            repolib_default_mirror: None,
        }
    }
}

impl Deb822Repository {
    /// The value of an attribute: `None` when it is absent.
    pub open spec fn value(&self, field: Field) -> Option<Seq<char>> {
        match field {
            Field::Enabled => self.enabled.deep_view(),
            Field::Types => self.types.deep_view(),
            Field::Uris => self.uris.deep_view(),
            Field::Suites => self.suites.deep_view(),
            Field::Components => self.components.deep_view(),
            Field::Architectures => self.architectures.deep_view(),
            Field::Languages => self.languages.deep_view(),
            Field::Targets => self.targets.deep_view(),
            Field::PDiffs => self.pdiffs.deep_view(),
            Field::ByHash => self.by_hash.deep_view(),
            Field::AllowInsecure => self.allow_insecure.deep_view(),
            Field::AllowWeak => self.allow_weak.deep_view(),
            Field::AllowDowngradeToInsecure => self.allow_downgrade_to_insecure.deep_view(),
            Field::Trusted => self.trusted.deep_view(),
            Field::SignedBy => self.signed_by.deep_view(),
            Field::CheckValidUntil => self.check_valid_until.deep_view(),
            Field::ValidUntilMin => self.valid_until_min.deep_view(),
            Field::CheckDate => self.check_date.deep_view(),
            Field::DateMaxFuture => self.date_max_future.deep_view(),
            Field::InReleasePath => self.inrelease_path.deep_view(),
            Field::Snapshot => self.snapshot.deep_view(),
            Field::RepolibName => self.repolib_name.deep_view(),
            Field::RepolibId => self.repolib_id.deep_view(),
            Field::RepolibDefaultMirror => self.repolib_default_mirror.deep_view(),
        }
    }

    /// The line that an attribute contributes to the written definition:
    /// name, colon, space, value and a newline; nothing for an absent one.
    pub open spec fn line(&self, field: Field) -> Seq<char> {
        match self.value(field) {
            Some(value) => field_line(field.label_text(), value),
            None => Seq::empty(),
        }
    }

    /// The lines of the first `count` fields of the schema, in schema order.
    pub open spec fn lines(&self, count: int) -> Seq<char>
        decreases count,
    {
        if count <= 0 {
            Seq::empty()
        } else {
            self.lines(count - 1) + self.line(Field::at(count - 1))
        }
    }

    /// The deb822 text of the definition: one line for each attribute that is
    /// present, in schema order, and nothing else.
    pub open spec fn text(&self) -> Seq<char> {
        self.lines(FIELD_COUNT as int)
    }

    /// The fields that the first `count` attributes are written as: one for
    /// each attribute that is present, in schema order.
    pub open spec fn written_upto(&self, count: int) -> Fields
        decreases count,
    {
        if count <= 0 {
            Seq::empty()
        } else {
            let field = Field::at(count - 1);
            match self.value(field) {
                Some(value) => self.written_upto(count - 1).push((field.label_text(), value)),
                None => self.written_upto(count - 1),
            }
        }
    }

    /// The fields that the definition is written as.
    pub open spec fn written_fields(&self) -> Fields {
        self.written_upto(FIELD_COUNT as int)
    }

    /// How many of the first `count` attributes are present.
    pub open spec fn present_upto(&self, count: int) -> nat
        decreases count,
    {
        if count <= 0 {
            0
        } else {
            self.present_upto(count - 1) + if self.value(Field::at(count - 1)) is Some {
                1nat
            } else {
                0nat
            }
        }
    }

    /// How many attributes are present.
    pub open spec fn present_count(&self) -> nat {
        self.present_upto(FIELD_COUNT as int)
    }

    /// No value of the definition holds a line feed.
    pub open spec fn has_single_line_values(&self) -> bool {
        forall|field: Field| #[trigger]
            self.value(field) matches Some(value) ==> !value.contains('\n')
    }

    /// The definition is what `fields` gives under the path `filepath`:
    /// each attribute is the first value under the field's name.
    pub open spec fn is_record_of(&self, fields: Fields, filepath: Seq<char>) -> bool {
        &&& self.filepath@ == filepath
        &&& forall|field: Field| #[trigger]
            self.value(field) == first_value(fields, field.label_text())
    }

    /// The attribute that a field of the schema stands for.
    pub fn attribute(&self, field: Field) -> (attribute: &Option<String>)
        ensures
            attribute.deep_view() == self.value(field),
    {
        match field {
            Field::Enabled => &self.enabled,
            Field::Types => &self.types,
            Field::Uris => &self.uris,
            Field::Suites => &self.suites,
            Field::Components => &self.components,
            Field::Architectures => &self.architectures,
            Field::Languages => &self.languages,
            Field::Targets => &self.targets,
            Field::PDiffs => &self.pdiffs,
            Field::ByHash => &self.by_hash,
            Field::AllowInsecure => &self.allow_insecure,
            Field::AllowWeak => &self.allow_weak,
            Field::AllowDowngradeToInsecure => &self.allow_downgrade_to_insecure,
            Field::Trusted => &self.trusted,
            Field::SignedBy => &self.signed_by,
            Field::CheckValidUntil => &self.check_valid_until,
            Field::ValidUntilMin => &self.valid_until_min,
            Field::CheckDate => &self.check_date,
            Field::DateMaxFuture => &self.date_max_future,
            Field::InReleasePath => &self.inrelease_path,
            Field::Snapshot => &self.snapshot,
            Field::RepolibName => &self.repolib_name,
            Field::RepolibId => &self.repolib_id,
            Field::RepolibDefaultMirror => &self.repolib_default_mirror,
        }
    }

    /// Sets one attribute, or clears it with `None`, and leaves the rest.
    pub fn set_attribute(&mut self, field: Field, value: Option<String>)
        ensures
            final(self).value(field) == value.deep_view(),
            forall|other: Field|
                other != field ==> #[trigger] final(self).value(other) == old(self).value(other),
            final(self).filepath == old(self).filepath,
    {
        match field {
            Field::Enabled => self.enabled = value,
            Field::Types => self.types = value,
            Field::Uris => self.uris = value,
            Field::Suites => self.suites = value,
            Field::Components => self.components = value,
            Field::Architectures => self.architectures = value,
            Field::Languages => self.languages = value,
            Field::Targets => self.targets = value,
            Field::PDiffs => self.pdiffs = value,
            Field::ByHash => self.by_hash = value,
            Field::AllowInsecure => self.allow_insecure = value,
            Field::AllowWeak => self.allow_weak = value,
            Field::AllowDowngradeToInsecure => self.allow_downgrade_to_insecure = value,
            Field::Trusted => self.trusted = value,
            Field::SignedBy => self.signed_by = value,
            Field::CheckValidUntil => self.check_valid_until = value,
            Field::ValidUntilMin => self.valid_until_min = value,
            Field::CheckDate => self.check_date = value,
            Field::DateMaxFuture => self.date_max_future = value,
            Field::InReleasePath => self.inrelease_path = value,
            Field::Snapshot => self.snapshot = value,
            Field::RepolibName => self.repolib_name = value,
            Field::RepolibId => self.repolib_id = value,
            Field::RepolibDefaultMirror => self.repolib_default_mirror = value,
        }
    }

    /// Reads a definition out of a paragraph. Each attribute takes the value
    /// of the first field that carries its name; fields that the schema does
    /// not know are left aside.
    pub fn from_paragraph(paragraph: &Paragraph, filepath: String) -> (record: Deb822Repository)
        ensures
            record.is_record_of(paragraph@, filepath@),
    {
        let mut record = Deb822Repository::default();
        record.filepath = filepath;
        let mut i: usize = 0;
        while i < FIELD_COUNT
            invariant
                i <= FIELD_COUNT,
                record.filepath@ == filepath@,
                forall|field: Field|
                    field.position() < i ==> #[trigger] record.value(field) == first_value(
                        paragraph@,
                        field.label_text(),
                    ),
            decreases FIELD_COUNT - i,
        {
            if let Some(field) = Field::from_index(i) {
                let found = paragraph.get(field.label());
                record.set_attribute(field, found);
            }
            i += 1;
        }
        record
    }

    /// Reads a definition out of the first paragraph of a document.
    ///
    /// Fails with `EmptyDocument` exactly when the document has no paragraph.
    pub fn from_document(document: &Document, filepath: String) -> (result: Result<
        Deb822Repository,
        SourcesError,
    >)
        ensures
            match result {
                Ok(record) => {
                    &&& document@.paragraphs.len() > 0
                    &&& record.is_record_of(document@.paragraphs[0], filepath@)
                },
                Err(SourcesError::EmptyDocument) => document@.paragraphs.len() == 0,
                Err(_) => false,
            },
    {
        match document.first_paragraph() {
            Some(paragraph) => Ok(Deb822Repository::from_paragraph(paragraph, filepath)),
            None => Err(SourcesError::EmptyDocument),
        }
    }

    /// Reads a definition out of the contents of the file at `file_path`.
    ///
    /// The contents are parsed, and the first paragraph becomes the
    /// definition. The failures are those of `Document::parse`, and
    /// `EmptyDocument` for contents without a paragraph.
    pub fn fn_new_from_file(file_path: String, contents: &str) -> (result: Result<
        Deb822Repository,
        SourcesError,
    >)
        ensures
            loads_as(file_path@, contents@, result),
    {
        match Document::parse(contents) {
            Ok(document) => Deb822Repository::from_document(&document, file_path),
            Err(error) => Err(error),
        }
    }

    /// The deb822 text of the definition.
    pub fn serialize(&self) -> (text: String)
        ensures
            text@ == self.text(),
    {
        let mut text = String::new();
        let mut i: usize = 0;
        while i < FIELD_COUNT
            invariant
                i <= FIELD_COUNT,
                text@ == self.lines(i as int),
            decreases FIELD_COUNT - i,
        {
            if let Some(field) = Field::from_index(i) {
                match self.attribute(field) {
                    Some(value) => {
                        text.append(field.label());
                        text.append(": ");
                        text.append(value.as_str());
                        text.append("\n");
                    },
                    None => {},
                }
            }
            i += 1;
        }
        text
    }

    /// Replaces the whole contents of a file, held in `contents`, by the
    /// text of the definition. Nothing of the old contents is kept.
    pub fn write_to_file(self, contents: &mut String)
        ensures
            final(contents)@ == self.text(),
    {
        *contents = self.serialize();
    }
}

/// `result` is what loading the text `contents` of the file at `filepath`
/// comes to: the definition in the first paragraph, or the reason why there
/// is none.
pub open spec fn loads_as(
    filepath: Seq<char>,
    contents: Seq<char>,
    result: Result<Deb822Repository, SourcesError>,
) -> bool {
    match result {
        Ok(record) => {
            &&& parsed(contents) matches Some(document)
            &&& document.paragraphs.len() > 0
            &&& record.is_record_of(document.paragraphs[0], filepath)
        },
        Err(SourcesError::TooLarge) => byte_len(contents) > MAX_TEXT_BYTES,
        Err(SourcesError::Parse(errors)) => {
            &&& byte_len(contents) <= MAX_TEXT_BYTES
            &&& deb822_parse(contents) matches Err(findings)
            &&& report_all(errors@, findings, vstd::utf8::encode_utf8(contents))
        },
        Err(SourcesError::EmptyDocument) => {
            &&& parsed(contents) matches Some(document)
            &&& document.paragraphs.len() == 0
        },
        Err(SourcesError::Io(_)) => false,
    }
}

/// The lines of the first `count` fields depend on the values of the
/// attributes alone.
proof fn lemma_lines_of_equal_values(a: Deb822Repository, b: Deb822Repository, count: int)
    requires
        forall|field: Field| #[trigger] a.value(field) == b.value(field),
    ensures
        a.lines(count) == b.lines(count),
    decreases count,
{
    if count > 0 {
        lemma_lines_of_equal_values(a, b, count - 1);
    }
}

/// Two definitions with the same attributes are written as the same text,
/// whatever their paths are and in whatever order the attributes were set or
/// stood in the paragraphs that they were read from.
pub proof fn lemma_text_of_equal_values(a: Deb822Repository, b: Deb822Repository)
    requires
        forall|field: Field| #[trigger] a.value(field) == b.value(field),
    ensures
        a.text() == b.text(),
{
    lemma_lines_of_equal_values(a, b, FIELD_COUNT as int);
}

/// A definition without any attribute is written as the empty text.
pub proof fn lemma_text_of_no_attribute(record: Deb822Repository)
    requires
        forall|field: Field| (#[trigger] record.value(field)) is None,
    ensures
        record.text() == Seq::<char>::empty(),
{
    lemma_lines_of_no_attribute(record, FIELD_COUNT as int);
}

/// Absent attributes leave no line.
proof fn lemma_lines_of_no_attribute(record: Deb822Repository, count: int)
    requires
        forall|field: Field| (#[trigger] record.value(field)) is None,
    ensures
        record.lines(count) == Seq::<char>::empty(),
    decreases count,
{
    if count > 0 {
        lemma_lines_of_no_attribute(record, count - 1);
    }
}

/// The lines of the first `count` attributes are the text of the fields that
/// they are written as.
proof fn lemma_lines_are_rendered(record: Deb822Repository, count: int)
    ensures
        record.lines(count) == rendered(record.written_upto(count)),
    decreases count,
{
    if count > 0 {
        lemma_lines_are_rendered(record, count - 1);
        let field = Field::at(count - 1);
        let before = record.written_upto(count - 1);
        if let Some(value) = record.value(field) {
            assert(before.push((field.label_text(), value)).drop_last() =~= before);
        }
    }
}

/// Among the fields that the first `count` attributes are written as, each of
/// these attributes is found under its name, and no other name of the schema
/// is found at all.
proof fn lemma_written_upto_reads_back(record: Deb822Repository, count: int, field: Field)
    requires
        0 <= count <= FIELD_COUNT,
    ensures
        first_value(record.written_upto(count), field.label_text()) == if field.position() < count {
            record.value(field)
        } else {
            None
        },
    decreases count,
{
    if count > 0 {
        lemma_written_upto_reads_back(record, count - 1, field);
        let last = Field::at(count - 1);
        if last != field {
            lemma_labels_differ(last, field);
        }
        match record.value(last) {
            Some(value) => {
                lemma_first_value_push(
                    record.written_upto(count - 1),
                    (last.label_text(), value),
                    field.label_text(),
                );
            },
            None => {},
        }
    }
}

/// Writing loses nothing: the text of a definition is the text of one field
/// for each present attribute, and a paragraph of just these fields reads
/// back as the same definition.
pub proof fn lemma_written_fields_read_back(record: Deb822Repository)
    ensures
        record.text() == rendered(record.written_fields()),
        record.is_record_of(record.written_fields(), record.filepath@),
{
    lemma_lines_are_rendered(record, FIELD_COUNT as int);
    assert forall|field: Field| #[trigger]
        record.value(field) == first_value(record.written_fields(), field.label_text()) by {
        lemma_written_upto_reads_back(record, FIELD_COUNT as int, field);
    }
}

/// Absence is never made up and never hidden: an attribute of a definition
/// read from a paragraph is absent exactly when the paragraph has no field of
/// that name.
pub proof fn lemma_absent_attribute_iff_no_field(
    record: Deb822Repository,
    fields: Fields,
    filepath: Seq<char>,
    field: Field,
)
    requires
        record.is_record_of(fields, filepath),
    ensures
        record.value(field) is None <==> has_no_field(fields, field.label_text()),
{
    lemma_absent_iff_no_field(fields, field.label_text());
}

/// Where no value holds a line feed, the first `count` attributes are written
/// as one line for each that is present.
proof fn lemma_lines_count(record: Deb822Repository, count: int)
    requires
        record.has_single_line_values(),
    ensures
        line_count(record.lines(count)) == record.present_upto(count),
    decreases count,
{
    if count > 0 {
        lemma_lines_count(record, count - 1);
        let field = Field::at(count - 1);
        lemma_line_count_add(record.lines(count - 1), record.line(field));
        if let Some(value) = record.value(field) {
            lemma_label_is_one_line(field);
            lemma_field_line_is_one_line(field.label_text(), value);
        }
    }
}

/// A definition is written as exactly as many lines as it has attributes:
/// an absent attribute leaves no line, and a present one leaves one line,
/// as long as no value holds a line feed of its own.
pub proof fn lemma_one_line_for_each_present_attribute(record: Deb822Repository)
    requires
        record.has_single_line_values(),
    ensures
        line_count(record.text()) == record.present_count(),
{
    lemma_lines_count(record, FIELD_COUNT as int);
}

/// No field of the schema goes by this name.
pub open spec fn is_unknown_name(name: Seq<char>) -> bool {
    forall|field: Field| #[trigger] field.label_text() != name
}

/// Fields that the schema does not know are dropped: a paragraph reads as
/// the same definition with such a field as without it, wherever the field
/// stands and whatever it holds.
pub proof fn lemma_unknown_field_is_dropped(
    record: Deb822Repository,
    fields: Fields,
    filepath: Seq<char>,
    i: int,
    unknown: (Seq<char>, Seq<char>),
)
    requires
        record.is_record_of(fields, filepath),
        0 <= i <= fields.len(),
        is_unknown_name(unknown.0),
    ensures
        record.is_record_of(fields.insert(i, unknown), filepath),
{
    assert forall|field: Field| #[trigger]
        record.value(field) == first_value(fields.insert(i, unknown), field.label_text()) by {
        assert(field.label_text() != unknown.0);
        lemma_other_field_is_ignored(fields, i, unknown, field.label_text());
    }
}

} // verus!
