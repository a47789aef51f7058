//! One deb822 paragraph: an ordered list of `(name, value)` fields.

use vstd::prelude::*;

verus! {

/// The mathematical model of a paragraph: its fields in order, each a pair of
/// field name and field value.
pub type Fields = Seq<(Seq<char>, Seq<char>)>;

/// The value of the first field called `name`, if there is one.
///
/// Names are compared exactly, so case matters. A name that occurs more than
/// once is tolerated; every occurrence after the first is ignored.
pub open spec fn first_value(fields: Fields, name: Seq<char>) -> Option<Seq<char>>
    decreases fields.len(),
{
    if fields.len() == 0 {
        None
    } else if fields[0].0 == name {
        Some(fields[0].1)
    } else {
        first_value(fields.drop_first(), name)
    }
}

/// A field as a line of deb822 text: name, colon, space, value, newline.
pub open spec fn field_line(name: Seq<char>, value: Seq<char>) -> Seq<char> {
    name + ": "@ + value + "\n"@
}

/// The text of a run of fields: the line of each, in order.
pub open spec fn rendered(fields: Fields) -> Seq<char>
    decreases fields.len(),
{
    if fields.len() == 0 {
        Seq::empty()
    } else {
        rendered(fields.drop_last()) + field_line(fields.last().0, fields.last().1)
    }
}

/// How many line feeds a text holds.
pub open spec fn line_count(text: Seq<char>) -> nat
    decreases text.len(),
{
    if text.len() == 0 {
        0
    } else {
        line_count(text.drop_last()) + if text.last() == '\n' {
            1nat
        } else {
            0nat
        }
    }
}

/// The line feeds of two texts add up when one text follows the other.
pub proof fn lemma_line_count_add(first: Seq<char>, second: Seq<char>)
    ensures
        line_count(first + second) == line_count(first) + line_count(second),
    decreases second.len(),
{
    if second.len() > 0 {
        assert((first + second).drop_last() =~= first + second.drop_last());
        lemma_line_count_add(first, second.drop_last());
    }
}

/// A text without a line feed counts none.
pub proof fn lemma_line_count_none(text: Seq<char>)
    requires
        !text.contains('\n'),
    ensures
        line_count(text) == 0,
    decreases text.len(),
{
    if text.len() > 0 {
        let shorter = text.drop_last();
        assert forall|i: int| 0 <= i < shorter.len() implies shorter[i] != '\n' by {
            assert(shorter[i] == text[i]);
        }
        lemma_line_count_none(shorter);
    }
}

/// A field whose name and value hold no line feed is written as one line.
pub proof fn lemma_field_line_is_one_line(name: Seq<char>, value: Seq<char>)
    requires
        !name.contains('\n'),
        !value.contains('\n'),
    ensures
        line_count(field_line(name, value)) == 1,
{
    reveal_strlit(": ");
    reveal_strlit("\n");
    let separator = ": "@;
    let end = "\n"@;
    lemma_line_count_none(name);
    lemma_line_count_none(separator);
    lemma_line_count_none(value);
    lemma_line_count_add(name, separator);
    lemma_line_count_add(name + separator, value);
    lemma_line_count_add(name + separator + value, end);
    assert(line_count(end) == 1) by {
        reveal_with_fuel(line_count, 2);
    }
}

/// `i` is the position of the first field called `name`.
pub open spec fn is_first_occurrence(fields: Fields, name: Seq<char>, i: int) -> bool {
    &&& 0 <= i < fields.len()
    &&& fields[i].0 == name
    &&& forall|j: int| 0 <= j < i ==> (#[trigger] fields[j]).0 != name
}

/// No field is called `name`.
pub open spec fn has_no_field(fields: Fields, name: Seq<char>) -> bool {
    forall|j: int| 0 <= j < fields.len() ==> (#[trigger] fields[j]).0 != name
}

/// A lookup yields the value at the first occurrence of the name, whatever
/// follows it.
pub proof fn lemma_first_occurrence_wins(fields: Fields, name: Seq<char>, i: int)
    requires
        is_first_occurrence(fields, name, i),
    ensures
        first_value(fields, name) == Some(fields[i].1),
    decreases fields.len(),
{
    if i > 0 {
        lemma_first_occurrence_wins(fields.drop_first(), name, i - 1);
    }
}

/// A lookup finds nothing exactly when no field carries the name.
pub proof fn lemma_absent_iff_no_field(fields: Fields, name: Seq<char>)
    ensures
        first_value(fields, name) is None <==> has_no_field(fields, name),
    decreases fields.len(),
{
    if fields.len() > 0 {
        let rest = fields.drop_first();
        lemma_absent_iff_no_field(rest, name);
        if fields[0].0 != name && has_no_field(rest, name) {
            assert forall|j: int| 0 <= j < fields.len() implies (#[trigger] fields[j]).0
                != name by {
                if j > 0 {
                    assert(fields[j] == rest[j - 1]);
                }
            }
        }
    }
}

/// A field added at the end is found only under a name that no earlier field
/// carries.
pub proof fn lemma_first_value_push(fields: Fields, last: (Seq<char>, Seq<char>), name: Seq<char>)
    ensures
        first_value(fields.push(last), name) == match first_value(fields, name) {
            Some(value) => Some(value),
            None => if last.0 == name {
                Some(last.1)
            } else {
                None
            },
        },
    decreases fields.len(),
{
    let longer = fields.push(last);
    if fields.len() == 0 {
        assert(longer[0] == last && longer.drop_first().len() == 0);
    } else {
        assert(longer.drop_first() =~= fields.drop_first().push(last));
        lemma_first_value_push(fields.drop_first(), last, name);
    }
}

/// A field of another name, wherever it stands, has no bearing on a lookup.
pub proof fn lemma_other_field_is_ignored(
    fields: Fields,
    i: int,
    other: (Seq<char>, Seq<char>),
    name: Seq<char>,
)
    requires
        0 <= i <= fields.len(),
        other.0 != name,
    ensures
        first_value(fields.insert(i, other), name) == first_value(fields, name),
    decreases i,
{
    let longer = fields.insert(i, other);
    if i == 0 {
        assert(longer[0] == other);
        assert(longer.drop_first() =~= fields);
    } else {
        assert(longer[0] == fields[0]);
        assert(longer.drop_first() =~= fields.drop_first().insert(i - 1, other));
        lemma_other_field_is_ignored(fields.drop_first(), i - 1, other, name);
    }
}

/// A paragraph as it was read: the fields in the order of the text.
#[derive(Debug, Clone, PartialEq, Eq)]
pub struct Paragraph {
    fields: Vec<(String, String)>,
}

impl View for Paragraph {
    type V = Fields;

    closed spec fn view(&self) -> Fields {
        self.fields.deep_view()
    }
}

impl Paragraph {
    /// Builds a paragraph from its fields, kept in the order given.
    pub fn from_fields(fields: Vec<(String, String)>) -> (paragraph: Paragraph)
        ensures
            paragraph@ == fields.deep_view(),
    {
        Paragraph { fields }
    }

    /// The fields in the order of the text, duplicates and names that no
    /// schema knows included.
    pub fn fields(&self) -> (fields: &Vec<(String, String)>)
        ensures
            fields.deep_view() == self@,
    {
        &self.fields
    }

    /// The value of the first field called `name`, or `None` when the
    /// paragraph has no such field.
    pub fn get(&self, name: &str) -> (value: Option<String>)
        ensures
            value.deep_view() == first_value(self@, name@),
    {
        let wanted = name.to_owned();
        let mut i: usize = 0;
        assert(self@.skip(0) =~= self@);
        while i < self.fields.len()
            invariant
                i <= self.fields.len(),
                wanted@ == name@,
                first_value(self@, name@) == first_value(self@.skip(i as int), name@),
            decreases self.fields.len() - i,
        {
            assert(self@.skip(i as int).drop_first() == self@.skip(i + 1));
            if self.fields[i].0 == wanted {
                return Some(self.fields[i].1.clone());
            }
            i += 1;
        }
        None
    }
}

} // verus!
