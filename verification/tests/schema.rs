use deb822_repository::field::FIELD_COUNT;
use deb822_repository::Field;

const LABELS: [&str; 24] = [
    "Enabled",
    "Types",
    "URIs",
    "Suites",
    "Components",
    "Architectures",
    "Languages",
    "Targets",
    "PDiffs",
    "By-Hash",
    "Allow-Insecure",
    "Allow-Weak",
    "Downgrade-To-Insecure",
    "Trusted",
    "Signed-By",
    "Check-Valid-Until",
    "Valid-Until-Min",
    "Check-Date",
    "Date-Max-Future",
    "InRelease-Path",
    "Snapshot",
    "X-Repolib-Name",
    "X-Repolib-ID",
    "X-Repolib-Default-Mirror",
];

#[test]
fn schema_has_twenty_four_fields() {
    assert_eq!(FIELD_COUNT, 24);
    assert_eq!(Field::from_index(23), Some(Field::RepolibDefaultMirror));
    assert_eq!(Field::from_index(24), None);
    assert_eq!(Field::from_index(usize::MAX), None);
}

#[test]
fn labels_stand_in_schema_order() {
    for (i, label) in LABELS.iter().enumerate() {
        let field = Field::from_index(i).unwrap();
        assert_eq!(field.label(), *label);
    }
}

#[test]
fn index_and_from_index_undo_each_other() {
    for i in 0..FIELD_COUNT {
        assert_eq!(Field::from_index(i).unwrap().index(), i);
    }
    assert_eq!(Field::Enabled.index(), 0);
    assert_eq!(Field::Uris.index(), 2);
    assert_eq!(Field::AllowDowngradeToInsecure.index(), 12);
}

#[test]
fn labels_are_all_different() {
    for i in 0..FIELD_COUNT {
        for j in 0..i {
            assert_ne!(LABELS[i], LABELS[j]);
            let (first, second) = (Field::from_index(i).unwrap(), Field::from_index(j).unwrap());
            assert_ne!(first.label(), second.label());
        }
    }
}
