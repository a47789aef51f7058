use deb822_repository::{Deb822Repository, Document, Field, Paragraph, SourcesError};

fn pair(name: &str, value: &str) -> (String, String) {
    (name.to_string(), value.to_string())
}

fn text(value: &str) -> Option<String> {
    Some(value.to_string())
}

const FULL: &str = "Enabled: yes\n\
Types: deb\n\
URIs: http://example.com\n\
Suites: stable\n\
Components: main\n\
Architectures: amd64\n\
Languages: en\n\
Targets: Packages\n\
PDiffs: no\n\
By-Hash: force\n\
Allow-Insecure: no\n\
Allow-Weak: no\n\
Downgrade-To-Insecure: no\n\
Trusted: yes\n\
Signed-By: /usr/share/keyrings/key.gpg\n\
Check-Valid-Until: yes\n\
Valid-Until-Min: 10\n\
Check-Date: yes\n\
Date-Max-Future: 20\n\
InRelease-Path: InRelease\n\
Snapshot: 20240101T000000Z\n\
X-Repolib-Name: Example\n\
X-Repolib-ID: example\n\
X-Repolib-Default-Mirror: http://mirror.example.com\n";

fn full_record(filepath: &str) -> Deb822Repository {
    Deb822Repository {
        filepath: filepath.to_string(),
        enabled: text("yes"),
        types: text("deb"),
        uris: text("http://example.com"),
        suites: text("stable"),
        components: text("main"),
        architectures: text("amd64"),
        languages: text("en"),
        targets: text("Packages"),
        pdiffs: text("no"),
        by_hash: text("force"),
        allow_insecure: text("no"),
        allow_weak: text("no"),
        allow_downgrade_to_insecure: text("no"),
        trusted: text("yes"),
        signed_by: text("/usr/share/keyrings/key.gpg"),
        check_valid_until: text("yes"),
        valid_until_min: text("10"),
        check_date: text("yes"),
        date_max_future: text("20"),
        inrelease_path: text("InRelease"),
        snapshot: text("20240101T000000Z"),
        repolib_name: text("Example"),
        repolib_id: text("example"),
        repolib_default_mirror: text("http://mirror.example.com"),
    }
}

#[test]
fn default_record_has_no_path_and_no_attribute() {
    let record = Deb822Repository::default();
    assert_eq!(record.filepath, "");
    for i in 0..24 {
        assert_eq!(record.attribute(Field::from_index(i).unwrap()), &None);
    }
}

#[test]
fn two_fields_are_extracted_and_the_rest_is_absent() {
    let document = Document::parse("Types: deb\nURIs: http://example.com\n").unwrap();
    let paragraph = document.first_paragraph().unwrap();
    let record = Deb822Repository::from_paragraph(paragraph, "a.sources".to_string());
    let mut expected = Deb822Repository::default();
    expected.filepath = "a.sources".to_string();
    expected.types = text("deb");
    expected.uris = text("http://example.com");
    assert_eq!(record, expected);
    assert_eq!(record.types, text("deb"));
    assert_eq!(record.uris, text("http://example.com"));
    let absent = (0..24)
        .map(|i| Field::from_index(i).unwrap())
        .filter(|field| record.attribute(*field).is_none())
        .count();
    assert_eq!(absent, 22);
}

#[test]
fn every_field_of_the_schema_is_read() {
    let document = Document::parse(FULL).unwrap();
    let record = Deb822Repository::from_document(&document, "/tmp/full.sources".to_string());
    assert_eq!(record, Ok(full_record("/tmp/full.sources")));
}

#[test]
fn field_order_in_the_paragraph_does_not_matter() {
    let mut lines: Vec<&str> = FULL.lines().collect();
    lines.reverse();
    let reversed = lines.join("\n") + "\n";
    let record = Deb822Repository::fn_new_from_file("r.sources".to_string(), &reversed).unwrap();
    assert_eq!(record, full_record("r.sources"));
    assert_eq!(record.serialize(), FULL);
}

#[test]
fn unknown_fields_are_dropped() {
    let paragraph = Paragraph::from_fields(vec![
        pair("X-Custom", "kept nowhere"),
        pair("Types", "deb"),
        pair("Allow-Downgrade-To-Insecure", "yes"),
    ]);
    let record = Deb822Repository::from_paragraph(&paragraph, String::new());
    let mut expected = Deb822Repository::default();
    expected.types = text("deb");
    assert_eq!(record, expected);
    assert_eq!(record.serialize(), "Types: deb\n");
}

#[test]
fn field_names_in_another_case_are_not_recognized() {
    let paragraph = Paragraph::from_fields(vec![pair("types", "deb"), pair("URIS", "http://a")]);
    let record = Deb822Repository::from_paragraph(&paragraph, String::new());
    assert_eq!(record, Deb822Repository::default());
}

#[test]
fn first_suites_line_becomes_the_attribute() {
    let record =
        Deb822Repository::fn_new_from_file("d.sources".to_string(), "Suites: a\nSuites: b\n")
            .unwrap();
    assert_eq!(record.suites, text("a"));
}

#[test]
fn only_the_first_paragraph_is_read() {
    let record = Deb822Repository::fn_new_from_file(
        "two.sources".to_string(),
        "Types: deb\n\nTypes: deb-src\nSuites: stable\n",
    )
    .unwrap();
    assert_eq!(record.types, text("deb"));
    assert_eq!(record.suites, None);
}

#[test]
fn empty_document_gives_no_record() {
    let document = Document::parse("").unwrap();
    let result = Deb822Repository::from_document(&document, "b.sources".to_string());
    assert_eq!(result, Err(SourcesError::EmptyDocument));
    let loaded = Deb822Repository::fn_new_from_file("b.sources".to_string(), "");
    assert_eq!(loaded, Err(SourcesError::EmptyDocument));
    let comment_only = Deb822Repository::fn_new_from_file("c.sources".to_string(), "# x\n");
    assert_eq!(comment_only, Err(SourcesError::EmptyDocument));
}

#[test]
fn malformed_contents_give_a_parse_error() {
    let loaded =
        Deb822Repository::fn_new_from_file("m.sources".to_string(), "Types: deb\nURIs x\n");
    match loaded {
        Err(SourcesError::Parse(errors)) => {
            assert_eq!(errors.len(), 1);
            assert_eq!(errors[0].line, 2);
        },
        other => panic!("expected a parse error, got {:?}", other),
    }
}

#[test]
fn only_present_attributes_are_written_in_schema_order() {
    let mut record = Deb822Repository::default();
    record.uris = text("http://example.com");
    record.types = text("deb");
    let written = record.serialize();
    assert_eq!(written, "Types: deb\nURIs: http://example.com\n");
    assert_eq!(written.lines().count(), 2);
}

#[test]
fn order_of_setting_attributes_does_not_matter() {
    let mut forwards = Deb822Repository::default();
    forwards.set_attribute(Field::Types, text("deb"));
    forwards.set_attribute(Field::Uris, text("http://example.com"));
    let mut backwards = Deb822Repository::default();
    backwards.set_attribute(Field::Uris, text("http://example.com"));
    backwards.set_attribute(Field::Types, text("deb"));
    assert_eq!(forwards, backwards);
    assert_eq!(forwards.serialize(), backwards.serialize());
}

#[test]
fn record_without_attributes_is_written_as_nothing() {
    let mut record = Deb822Repository::default();
    record.filepath = "/etc/apt/sources.list.d/x.sources".to_string();
    assert_eq!(record.serialize(), "");
}

#[test]
fn full_record_is_written_line_by_line() {
    let written = full_record("ignored").serialize();
    assert_eq!(written, FULL);
    assert_eq!(written.lines().count(), 24);
}

#[test]
fn empty_value_is_written_as_a_bare_label() {
    let mut record = Deb822Repository::default();
    record.enabled = text("");
    assert_eq!(record.serialize(), "Enabled: \n");
}

#[test]
fn folded_value_is_written_as_it_is_held() {
    let record =
        Deb822Repository::fn_new_from_file("f.sources".to_string(), "URIs: http://a\n http://b\n")
            .unwrap();
    assert_eq!(record.uris, text("http://a\nhttp://b"));
    let written = record.serialize();
    assert_eq!(written, "URIs: http://a\nhttp://b\n");
    assert_eq!(written.lines().count(), 2);
}

#[test]
fn attribute_and_set_attribute_meet_the_named_fields() {
    let mut record = Deb822Repository::default();
    record.set_attribute(Field::SignedBy, text("/key.gpg"));
    record.set_attribute(Field::AllowDowngradeToInsecure, text("no"));
    assert_eq!(record.signed_by, text("/key.gpg"));
    assert_eq!(record.allow_downgrade_to_insecure, text("no"));
    assert_eq!(record.attribute(Field::SignedBy), &text("/key.gpg"));
    record.set_attribute(Field::SignedBy, None);
    assert_eq!(record.signed_by, None);
    assert_eq!(record.attribute(Field::AllowDowngradeToInsecure), &text("no"));
    let full = full_record("p");
    for i in 0..24 {
        let field = Field::from_index(i).unwrap();
        let line = format!("{}: {}", field.label(), full.attribute(field).clone().unwrap());
        assert_eq!(FULL.lines().nth(i), Some(line.as_str()));
    }
}

#[test]
fn write_to_file_replaces_the_old_contents() {
    let mut contents = "# edited in place\nX-Custom: lost\n".to_string();
    let mut record = Deb822Repository::default();
    record.types = text("deb");
    record.uris = text("http://example.com");
    record.write_to_file(&mut contents);
    assert_eq!(contents, "Types: deb\nURIs: http://example.com\n");
}

#[test]
fn written_record_reads_back() {
    let record = full_record("back.sources");
    let written = record.serialize();
    let read = Deb822Repository::fn_new_from_file("back.sources".to_string(), &written);
    assert_eq!(read, Ok(record));
}
