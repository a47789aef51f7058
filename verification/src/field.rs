//! The schema of a repository definition: its recognized fields, in the order
//! in which they are written.

use vstd::prelude::*;

verus! {

/// How many fields the schema has.
pub const FIELD_COUNT: usize = 24;

/// A recognized field of a repository definition. The variants stand in
/// schema order, which is the order of the lines in a written definition.
#[derive(Debug, Clone, Copy, PartialEq, Eq, Hash, Structural)]
pub enum Field {
    /// `Enabled`
    Enabled,
    /// `Types`
    Types,
    /// `URIs`
    Uris,
    /// `Suites`
    Suites,
    /// `Components`
    Components,
    /// `Architectures`
    Architectures,
    /// `Languages`
    Languages,
    /// `Targets`
    Targets,
    /// `PDiffs`
    PDiffs,
    /// `By-Hash`
    ByHash,
    /// `Allow-Insecure`
    AllowInsecure,
    /// `Allow-Weak`
    AllowWeak,
    /// `Downgrade-To-Insecure`
    AllowDowngradeToInsecure,
    /// `Trusted`
    Trusted,
    /// `Signed-By`
    SignedBy,
    /// `Check-Valid-Until`
    CheckValidUntil,
    /// `Valid-Until-Min`
    ValidUntilMin,
    /// `Check-Date`
    CheckDate,
    /// `Date-Max-Future`
    DateMaxFuture,
    /// `InRelease-Path`
    InReleasePath,
    /// `Snapshot`
    Snapshot,
    /// `X-Repolib-Name`
    RepolibName,
    /// `X-Repolib-ID`
    RepolibId,
    /// `X-Repolib-Default-Mirror`
    RepolibDefaultMirror,
}

impl Field {
    /// The place of the field in schema order, counted from zero.
    pub open spec fn position(self) -> int {
        match self {
            Field::Enabled => 0,
            Field::Types => 1,
            Field::Uris => 2,
            Field::Suites => 3,
            Field::Components => 4,
            Field::Architectures => 5,
            Field::Languages => 6,
            Field::Targets => 7,
            Field::PDiffs => 8,
            Field::ByHash => 9,
            Field::AllowInsecure => 10,
            Field::AllowWeak => 11,
            Field::AllowDowngradeToInsecure => 12,
            Field::Trusted => 13,
            Field::SignedBy => 14,
            Field::CheckValidUntil => 15,
            Field::ValidUntilMin => 16,
            Field::CheckDate => 17,
            Field::DateMaxFuture => 18,
            Field::InReleasePath => 19,
            Field::Snapshot => 20,
            Field::RepolibName => 21,
            Field::RepolibId => 22,
            Field::RepolibDefaultMirror => 23,
        }
    }

    /// The field at place `i` of the schema order.
    pub open spec fn at(i: int) -> Field
        recommends
            0 <= i < FIELD_COUNT,
    {
        if i == 0 {
            Field::Enabled
        } else if i == 1 {
            Field::Types
        } else if i == 2 {
            Field::Uris
        } else if i == 3 {
            Field::Suites
        } else if i == 4 {
            Field::Components
        } else if i == 5 {
            Field::Architectures
        } else if i == 6 {
            Field::Languages
        } else if i == 7 {
            Field::Targets
        } else if i == 8 {
            Field::PDiffs
        } else if i == 9 {
            Field::ByHash
        } else if i == 10 {
            Field::AllowInsecure
        } else if i == 11 {
            Field::AllowWeak
        } else if i == 12 {
            Field::AllowDowngradeToInsecure
        } else if i == 13 {
            Field::Trusted
        } else if i == 14 {
            Field::SignedBy
        } else if i == 15 {
            Field::CheckValidUntil
        } else if i == 16 {
            Field::ValidUntilMin
        } else if i == 17 {
            Field::CheckDate
        } else if i == 18 {
            Field::DateMaxFuture
        } else if i == 19 {
            Field::InReleasePath
        } else if i == 20 {
            Field::Snapshot
        } else if i == 21 {
            Field::RepolibName
        } else if i == 22 {
            Field::RepolibId
        } else {
            Field::RepolibDefaultMirror
        }
    }

    /// The name under which the field stands in deb822 text.
    pub open spec fn label_text(self) -> Seq<char> {
        match self {
            Field::Enabled => "Enabled"@,
            Field::Types => "Types"@,
            Field::Uris => "URIs"@,
            Field::Suites => "Suites"@,
            Field::Components => "Components"@,
            Field::Architectures => "Architectures"@,
            Field::Languages => "Languages"@,
            Field::Targets => "Targets"@,
            Field::PDiffs => "PDiffs"@,
            Field::ByHash => "By-Hash"@,
            Field::AllowInsecure => "Allow-Insecure"@,
            Field::AllowWeak => "Allow-Weak"@,
            Field::AllowDowngradeToInsecure => "Downgrade-To-Insecure"@,
            Field::Trusted => "Trusted"@,
            Field::SignedBy => "Signed-By"@,
            Field::CheckValidUntil => "Check-Valid-Until"@,
            Field::ValidUntilMin => "Valid-Until-Min"@,
            Field::CheckDate => "Check-Date"@,
            Field::DateMaxFuture => "Date-Max-Future"@,
            Field::InReleasePath => "InRelease-Path"@,
            Field::Snapshot => "Snapshot"@,
            Field::RepolibName => "X-Repolib-Name"@,
            Field::RepolibId => "X-Repolib-ID"@,
            Field::RepolibDefaultMirror => "X-Repolib-Default-Mirror"@,
        }
    }

    /// The place of the field in schema order, counted from zero.
    pub fn index(self) -> (i: usize)
        ensures
            i == self.position(),
            i < FIELD_COUNT,
    {
        match self {
            Field::Enabled => 0,
            Field::Types => 1,
            Field::Uris => 2,
            Field::Suites => 3,
            Field::Components => 4,
            Field::Architectures => 5,
            Field::Languages => 6,
            Field::Targets => 7,
            Field::PDiffs => 8,
            Field::ByHash => 9,
            Field::AllowInsecure => 10,
            Field::AllowWeak => 11,
            Field::AllowDowngradeToInsecure => 12,
            Field::Trusted => 13,
            Field::SignedBy => 14,
            Field::CheckValidUntil => 15,
            Field::ValidUntilMin => 16,
            Field::CheckDate => 17,
            Field::DateMaxFuture => 18,
            Field::InReleasePath => 19,
            Field::Snapshot => 20,
            Field::RepolibName => 21,
            Field::RepolibId => 22,
            Field::RepolibDefaultMirror => 23,
        }
    }

    /// The field at place `i` of the schema order, or `None` when the schema
    /// has no such place.
    pub fn from_index(i: usize) -> (field: Option<Field>)
        ensures
            field == if i < FIELD_COUNT {
                Some(Field::at(i as int))
            } else {
                None
            },
    {
        match i {
            0 => Some(Field::Enabled),
            1 => Some(Field::Types),
            2 => Some(Field::Uris),
            3 => Some(Field::Suites),
            4 => Some(Field::Components),
            5 => Some(Field::Architectures),
            6 => Some(Field::Languages),
            7 => Some(Field::Targets),
            8 => Some(Field::PDiffs),
            9 => Some(Field::ByHash),
            10 => Some(Field::AllowInsecure),
            11 => Some(Field::AllowWeak),
            12 => Some(Field::AllowDowngradeToInsecure),
            13 => Some(Field::Trusted),
            14 => Some(Field::SignedBy),
            15 => Some(Field::CheckValidUntil),
            16 => Some(Field::ValidUntilMin),
            17 => Some(Field::CheckDate),
            18 => Some(Field::DateMaxFuture),
            19 => Some(Field::InReleasePath),
            20 => Some(Field::Snapshot),
            21 => Some(Field::RepolibName),
            22 => Some(Field::RepolibId),
            23 => Some(Field::RepolibDefaultMirror),
            _ => None,
        }
    }

    /// The name under which the field stands in deb822 text.
    pub fn label(self) -> (label: &'static str)
        ensures
            label@ == self.label_text(),
    {
        match self {
            Field::Enabled => "Enabled",
            Field::Types => "Types",
            Field::Uris => "URIs",
            Field::Suites => "Suites",
            Field::Components => "Components",
            Field::Architectures => "Architectures",
            Field::Languages => "Languages",
            Field::Targets => "Targets",
            Field::PDiffs => "PDiffs",
            Field::ByHash => "By-Hash",
            Field::AllowInsecure => "Allow-Insecure",
            Field::AllowWeak => "Allow-Weak",
            Field::AllowDowngradeToInsecure => "Downgrade-To-Insecure",
            Field::Trusted => "Trusted",
            Field::SignedBy => "Signed-By",
            Field::CheckValidUntil => "Check-Valid-Until",
            Field::ValidUntilMin => "Valid-Until-Min",
            Field::CheckDate => "Check-Date",
            Field::DateMaxFuture => "Date-Max-Future",
            Field::InReleasePath => "InRelease-Path",
            Field::Snapshot => "Snapshot",
            Field::RepolibName => "X-Repolib-Name",
            Field::RepolibId => "X-Repolib-ID",
            Field::RepolibDefaultMirror => "X-Repolib-Default-Mirror",
        }
    }
}

/// Every field has one place in the schema order, and every place one field.
pub proof fn lemma_schema_order()
    ensures
        forall|field: Field|
            0 <= #[trigger] field.position() < FIELD_COUNT && Field::at(field.position()) == field,
        forall|i: int| 0 <= i < FIELD_COUNT ==> (#[trigger] Field::at(i)).position() == i,
{
}

/// The length of a name and its first two characters: enough to tell the
/// names of the schema apart.
spec fn signature(label: Seq<char>) -> (nat, char, char) {
    (label.len(), label[0], label[1])
}

/// No two fields share a name, so a name in deb822 text stands for one field
/// at most.
pub proof fn lemma_labels_differ(first: Field, second: Field)
    requires
        first != second,
    ensures
        first.label_text() != second.label_text(),
{
    reveal_strlit("Enabled");
    reveal_strlit("Types");
    reveal_strlit("URIs");
    reveal_strlit("Suites");
    reveal_strlit("Components");
    reveal_strlit("Architectures");
    reveal_strlit("Languages");
    reveal_strlit("Targets");
    reveal_strlit("PDiffs");
    reveal_strlit("By-Hash");
    reveal_strlit("Allow-Insecure");
    reveal_strlit("Allow-Weak");
    reveal_strlit("Downgrade-To-Insecure");
    reveal_strlit("Trusted");
    reveal_strlit("Signed-By");
    reveal_strlit("Check-Valid-Until");
    reveal_strlit("Valid-Until-Min");
    reveal_strlit("Check-Date");
    reveal_strlit("Date-Max-Future");
    reveal_strlit("InRelease-Path");
    reveal_strlit("Snapshot");
    reveal_strlit("X-Repolib-Name");
    reveal_strlit("X-Repolib-ID");
    reveal_strlit("X-Repolib-Default-Mirror");
    assert(signature(first.label_text()) != signature(second.label_text()));
}

/// No name of the schema holds a line feed.
pub proof fn lemma_label_is_one_line(field: Field)
    ensures
        !field.label_text().contains('\n'),
{
    reveal_strlit("Enabled");
    reveal_strlit("Types");
    reveal_strlit("URIs");
    reveal_strlit("Suites");
    reveal_strlit("Components");
    reveal_strlit("Architectures");
    reveal_strlit("Languages");
    reveal_strlit("Targets");
    reveal_strlit("PDiffs");
    reveal_strlit("By-Hash");
    reveal_strlit("Allow-Insecure");
    reveal_strlit("Allow-Weak");
    reveal_strlit("Downgrade-To-Insecure");
    reveal_strlit("Trusted");
    reveal_strlit("Signed-By");
    reveal_strlit("Check-Valid-Until");
    reveal_strlit("Valid-Until-Min");
    reveal_strlit("Check-Date");
    reveal_strlit("Date-Max-Future");
    reveal_strlit("InRelease-Path");
    reveal_strlit("Snapshot");
    reveal_strlit("X-Repolib-Name");
    reveal_strlit("X-Repolib-ID");
    reveal_strlit("X-Repolib-Default-Mirror");
}

} // verus!
