use cff_core::decode::{check_document, decode};
use cff_core::fields::{resolve_field, FieldId};
use cff_core::errors::{ErrorKind, Finding, Severity};
use cff_core::model::{Author, Citation, License, Type};
use cff_core::node::{Entry, Node};
use cff_core::validate::validate;

fn t(s: &str) -> Node {
    Node::Text(s.to_string())
}

fn e(k: &str, v: Node) -> Entry {
    Entry { key: k.to_string(), value: v }
}

fn entity(name: &str) -> Node {
    Node::Rec(vec![e("name", t(name))])
}

fn minimal_entries() -> Vec<Entry> {
    vec![
        e("title", t("My Tool")),
        e("message", t("Please cite this.")),
        e("cff-version", t("1.2.0")),
        e("authors", Node::List(vec![entity("Acme")])),
    ]
}

fn minimal_doc() -> Node {
    Node::Rec(minimal_entries())
}

fn expect_ok(doc: &Node) -> (Citation, Vec<Finding>) {
    match decode(doc, false) {
        Ok(r) => r,
        Err(es) => panic!("expected a decoded citation, got errors: {:?}", es),
    }
}

fn expect_err(doc: &Node, strict: bool) -> Vec<Finding> {
    match decode(doc, strict) {
        Ok(_) => panic!("expected decoding to fail"),
        Err(es) => es,
    }
}

fn has_top_finding(fs: &[Finding], kind: ErrorKind, field: &str) -> bool {
    fs.iter().any(|f| f.kind == kind && f.field == field && f.index.is_none())
}

#[test]
fn minimal_document_decodes() {
    let (c, warns) = expect_ok(&minimal_doc());
    assert_eq!(c.title, "My Tool");
    assert_eq!(c.schema_version, "1.2.0");
    assert_eq!(c.message, "Please cite this.");
    assert_eq!(c.authors.len(), 1);
    assert_eq!(c.authors[0], Author::Entity { name: "Acme".to_string() });
    assert_eq!(c.work_type, Type::Software);
    assert!(c.license.is_empty());
    assert!(warns.is_empty());
}

#[test]
fn missing_title_fails_with_named_field() {
    let doc = Node::Rec(vec![
        e("message", t("m")),
        e("cff-version", t("1.2.0")),
        e("authors", Node::List(vec![entity("Acme")])),
    ]);
    let errs = expect_err(&doc, false);
    assert!(has_top_finding(&errs, ErrorKind::MissingRequiredField, "title"));
}

#[test]
fn missing_schema_version_fails_with_named_field() {
    let doc = Node::Rec(vec![
        e("title", t("x")),
        e("message", t("m")),
        e("authors", Node::List(vec![entity("Acme")])),
    ]);
    let errs = expect_err(&doc, false);
    assert!(has_top_finding(&errs, ErrorKind::MissingRequiredField, "cff-version"));
}

#[test]
fn missing_authors_fails_with_named_field() {
    let doc = Node::Rec(vec![
        e("title", t("x")),
        e("message", t("m")),
        e("cff-version", t("1.2.0")),
    ]);
    let errs = expect_err(&doc, false);
    assert!(has_top_finding(&errs, ErrorKind::MissingRequiredField, "authors"));
}

#[test]
fn all_missing_fields_reported_at_once() {
    let errs = expect_err(&Node::Rec(vec![]), false);
    assert!(has_top_finding(&errs, ErrorKind::MissingRequiredField, "title"));
    assert!(has_top_finding(&errs, ErrorKind::MissingRequiredField, "cff-version"));
    assert!(has_top_finding(&errs, ErrorKind::MissingRequiredField, "authors"));
    assert!(!has_top_finding(&errs, ErrorKind::MissingRequiredField, "message"));
}

#[test]
fn absent_message_defaults_instead_of_failing() {
    let doc = Node::Rec(vec![
        e("title", t("x")),
        e("cff-version", t("1.2.0")),
        e("authors", Node::List(vec![entity("Acme")])),
    ]);
    let (c, _) = expect_ok(&doc);
    assert_eq!(
        c.message,
        "If you use this software, please cite it using the metadata from this file."
    );
}

#[test]
fn person_selected_from_hyphenated_keys() {
    let mut es = minimal_entries();
    es[3] = e(
        "authors",
        Node::List(vec![Node::Rec(vec![
            e("given-names", t("Ada")),
            e("family-names", t("Lovelace")),
            e("email", t("ada@example.org")),
        ])]),
    );
    let (c, _) = expect_ok(&Node::Rec(es));
    assert_eq!(
        c.authors[0],
        Author::Person {
            given_names: "Ada".to_string(),
            family_names: "Lovelace".to_string(),
            email: Some("ada@example.org".to_string()),
            orcid: None,
        }
    );
}

#[test]
fn person_selected_from_underscored_keys() {
    let mut es = minimal_entries();
    es[3] = e(
        "authors",
        Node::List(vec![Node::Rec(vec![
            e("given_names", t("Ada")),
            e("family_names", t("Lovelace")),
        ])]),
    );
    let (c, _) = expect_ok(&Node::Rec(es));
    assert!(matches!(c.authors[0], Author::Person { .. }));
}

#[test]
fn both_variant_key_sets_is_ambiguous() {
    let mut es = minimal_entries();
    es[3] = e(
        "authors",
        Node::List(vec![Node::Rec(vec![
            e("given-names", t("Ada")),
            e("family-names", t("Lovelace")),
            e("name", t("Acme")),
        ])]),
    );
    let errs = expect_err(&Node::Rec(es), false);
    assert!(errs
        .iter()
        .any(|f| f.kind == ErrorKind::AmbiguousVariant && f.field == "authors" && f.index == Some(0)));
}

#[test]
fn neither_variant_key_set_is_unrecognized() {
    let mut es = minimal_entries();
    es[3] = e(
        "authors",
        Node::List(vec![Node::Rec(vec![e("email", t("a@b.c"))])]),
    );
    let errs = expect_err(&Node::Rec(es), false);
    let unrec = errs
        .iter()
        .find(|f| f.kind == ErrorKind::UnrecognizedVariant && f.field == "authors"
            && f.index == Some(0))
        .expect("an unrecognized-variant finding");
    assert_eq!(unrec.keys, vec!["email".to_string()]);
}

#[test]
fn bad_author_does_not_stop_later_authors() {
    let mut es = minimal_entries();
    es[3] = e(
        "authors",
        Node::List(vec![
            Node::Rec(vec![e("email", t("a@b.c"))]),
            Node::Rec(vec![e("orcid", t("0000"))]),
        ]),
    );
    let errs = expect_err(&Node::Rec(es), false);
    assert!(errs.iter().any(|f| f.index == Some(0)));
    assert!(errs.iter().any(|f| f.index == Some(1)));
}

#[test]
fn empty_author_list_fails() {
    let mut es = minimal_entries();
    es[3] = e("authors", Node::List(vec![]));
    let errs = expect_err(&Node::Rec(es), false);
    assert!(has_top_finding(&errs, ErrorKind::FormatViolation, "authors"));
}

#[test]
fn absent_type_defaults_to_software() {
    let (c, _) = expect_ok(&minimal_doc());
    assert_eq!(c.work_type, Type::Software);
}

#[test]
fn dataset_type_matches_case_insensitively() {
    for token in ["dataset", "Dataset", "DATASET"] {
        let mut es = minimal_entries();
        es.push(e("type", t(token)));
        let (c, _) = expect_ok(&Node::Rec(es));
        assert_eq!(c.work_type, Type::Dataset);
    }
}

#[test]
fn unknown_type_token_is_invalid_enum_value() {
    let mut es = minimal_entries();
    es.push(e("type", t("journal")));
    let errs = expect_err(&Node::Rec(es), false);
    let bad = errs
        .iter()
        .find(|f| f.kind == ErrorKind::InvalidEnumValue && f.field == "type")
        .expect("an invalid-enum-value finding");
    assert_eq!(bad.token, Some("journal".to_string()));
}

#[test]
fn decoding_twice_yields_identical_citations() {
    let doc = minimal_doc();
    let (c1, _) = expect_ok(&doc);
    let (c2, _) = expect_ok(&doc);
    assert_eq!(c1, c2);
}

#[test]
fn february_thirtieth_passes_decode_but_fails_validation() {
    let with_date = || {
        let mut es = minimal_entries();
        es.push(e("date-released", t("2021-02-30")));
        es
    };
    let (c, _) = expect_ok(&Node::Rec(with_date()));
    assert_eq!(c.date_released, Some("2021-02-30".to_string()));
    let vfs = validate(&c);
    assert!(vfs
        .iter()
        .any(|f| f.kind == ErrorKind::FormatViolation && f.field == "date-released"
            && f.severity == Severity::Error));
    let pipeline_errs = match check_document(&Node::Rec(with_date()), false) {
        Err(es) => es,
        Ok(_) => panic!("expected the pipeline to reject the date"),
    };
    assert!(pipeline_errs
        .iter()
        .any(|f| f.kind == ErrorKind::FormatViolation && f.field == "date-released"
            && f.severity == Severity::Error));
}

#[test]
fn leap_day_is_accepted_only_in_leap_years() {
    assert!(cff_core::dates::check_date_valid("2020-02-29"));
    assert!(!cff_core::dates::check_date_valid("2021-02-29"));
    assert!(cff_core::dates::check_date_valid("2000-02-29"));
    assert!(!cff_core::dates::check_date_valid("1900-02-29"));
}

#[test]
fn malformed_date_pattern_fails_decode() {
    let mut es = minimal_entries();
    es.push(e("date_released", t("2021-2-03")));
    let errs = expect_err(&Node::Rec(es), false);
    assert!(has_top_finding(&errs, ErrorKind::FormatViolation, "date-released"));
}

#[test]
fn unknown_keys_warn_unless_strict() {
    let with_unknown = || {
        let mut es = minimal_entries();
        es.push(e("colour", t("blue")));
        es.push(e("mood", t("calm")));
        es
    };
    let (_, warns) = expect_ok(&Node::Rec(with_unknown()));
    assert_eq!(warns.len(), 2);
    assert!(warns
        .iter()
        .all(|f| f.kind == ErrorKind::UnknownField && f.severity == Severity::Warning));
    assert!(warns.iter().any(|f| f.field == "colour"));
    assert!(warns.iter().any(|f| f.field == "mood"));
    let errs = expect_err(&Node::Rec(with_unknown()), true);
    assert_eq!(
        errs.iter().filter(|f| f.kind == ErrorKind::UnknownField).count(),
        2
    );
    assert!(errs.iter().any(|f| f.kind == ErrorKind::UnknownField && f.field == "colour"));
    assert!(errs.iter().any(|f| f.kind == ErrorKind::UnknownField && f.field == "mood"));
    assert!(errs
        .iter()
        .all(|f| f.kind != ErrorKind::UnknownField || f.severity == Severity::Error));
}

#[test]
fn validator_notes_unspecified_licensing_once() {
    let (c, _) = expect_ok(&minimal_doc());
    let vfs = validate(&c);
    assert_eq!(vfs.len(), 1);
    assert_eq!(vfs[0].kind, ErrorKind::Unlicensed);
    assert_eq!(vfs[0].severity, Severity::Info);
    assert!(vfs.iter().all(|f| f.severity != Severity::Error));
}

#[test]
fn single_license_token_decodes() {
    let mut es = minimal_entries();
    es.push(e("license", t("MIT")));
    let (c, _) = expect_ok(&Node::Rec(es));
    assert_eq!(c.license, vec![License::Mit]);
}

#[test]
fn license_list_keeps_order_as_disjunction() {
    let mut es = minimal_entries();
    es.push(e("license", Node::List(vec![t("mit"), t("Apache-2.0")])));
    let (c, _) = expect_ok(&Node::Rec(es));
    assert_eq!(c.license, vec![License::Mit, License::Apache20]);
}

#[test]
fn unknown_license_token_is_never_dropped() {
    let mut es = minimal_entries();
    es.push(e("license", Node::List(vec![t("MIT"), t("my-own-license")])));
    let errs = expect_err(&Node::Rec(es), false);
    assert!(errs
        .iter()
        .any(|f| f.kind == ErrorKind::InvalidEnumValue && f.field == "license"
            && f.index == Some(1)));
}

#[test]
fn bad_url_is_a_validation_violation() {
    let mut es = minimal_entries();
    es.push(e("url", t("not a url")));
    let (c, _) = expect_ok(&Node::Rec(es));
    let vfs = validate(&c);
    assert!(vfs
        .iter()
        .any(|f| f.kind == ErrorKind::FormatViolation && f.field == "url"
            && f.severity == Severity::Error));
}

#[test]
fn good_urls_pass_validation() {
    let mut es = minimal_entries();
    es.push(e("url", t("https://example.org/tool")));
    es.push(e("repository-code", t("https://example.org/git/tool")));
    es.push(e("license", t("MIT")));
    let (c, fs) = match check_document(&Node::Rec(es), false) {
        Ok(r) => r,
        Err(es) => panic!("expected success, got {:?}", es),
    };
    assert_eq!(c.url, Some("https://example.org/tool".to_string()));
    assert!(fs.iter().all(|f| f.severity != Severity::Error));
}

#[test]
fn preferred_citation_yields_advisory_warning() {
    let mut es = minimal_entries();
    es.push(e("preferred-citation", t("See the paper instead")));
    es.push(e("license", t("ISC")));
    let (c, _) = expect_ok(&Node::Rec(es));
    let vfs = validate(&c);
    assert_eq!(vfs.len(), 1);
    assert_eq!(vfs[0].kind, ErrorKind::Advisory);
    assert_eq!(vfs[0].severity, Severity::Warning);
}

#[test]
fn empty_title_is_rejected() {
    let mut es = minimal_entries();
    es[0] = e("title", t(""));
    let errs = expect_err(&Node::Rec(es), false);
    assert!(has_top_finding(&errs, ErrorKind::FormatViolation, "title"));
}

#[test]
fn non_text_title_is_a_type_mismatch() {
    let mut es = minimal_entries();
    es[0] = e("title", Node::Other);
    let errs = expect_err(&Node::Rec(es), false);
    assert!(has_top_finding(&errs, ErrorKind::TypeMismatch, "title"));
}

#[test]
fn non_mapping_root_is_a_structural_failure() {
    let errs = expect_err(&Node::Text("just text".to_string()), false);
    assert_eq!(errs.len(), 1);
    assert_eq!(errs[0].kind, ErrorKind::StructuralFailure);
}

#[test]
fn sequence_fields_default_to_empty_and_decode_per_element() {
    let mut es = minimal_entries();
    es.push(e("keywords", Node::List(vec![t("science"), t("tools")])));
    es.push(e("identifiers", Node::List(vec![Node::Rec(vec![]), Node::Rec(vec![])])));
    es.push(e("references", Node::List(vec![Node::Rec(vec![])])));
    let (c, _) = expect_ok(&Node::Rec(es));
    assert_eq!(c.keywords, vec!["science".to_string(), "tools".to_string()]);
    assert_eq!(c.identifiers.len(), 2);
    assert_eq!(c.references.len(), 1);
    let (c2, _) = expect_ok(&minimal_doc());
    assert!(c2.keywords.is_empty());
    assert!(c2.identifiers.is_empty());
    assert!(c2.references.is_empty());
}

#[test]
fn keyword_errors_carry_their_index() {
    let mut es = minimal_entries();
    es.push(e("keywords", Node::List(vec![t("fine"), Node::Other])));
    let errs = expect_err(&Node::Rec(es), false);
    assert!(errs
        .iter()
        .any(|f| f.kind == ErrorKind::TypeMismatch && f.field == "keywords" && f.index == Some(1)));
}

#[test]
fn underscored_top_level_aliases_resolve() {
    let doc = Node::Rec(vec![
        e("title", t("x")),
        e("cff_version", t("1.2.0")),
        e("authors", Node::List(vec![entity("Acme")])),
        e("license_url", t("https://example.org/license")),
        e("repository_code", t("https://example.org/src")),
    ]);
    let (c, warns) = expect_ok(&doc);
    assert!(warns.is_empty());
    assert_eq!(c.schema_version, "1.2.0");
    assert_eq!(c.license_url, Some("https://example.org/license".to_string()));
    assert_eq!(c.repository_code, Some("https://example.org/src".to_string()));
}

#[test]
fn first_matching_spelling_wins() {
    let doc = Node::Rec(vec![
        e("title", t("first")),
        e("title", t("second")),
        e("message", t("m")),
        e("cff-version", t("1.2.0")),
        e("authors", Node::List(vec![entity("Acme")])),
    ]);
    let (c, _) = expect_ok(&doc);
    assert_eq!(c.title, "first");
}

#[test]
fn enum_matcher_is_exposed_and_case_insensitive() {
    assert_eq!(cff_core::enum_match::match_type("SOFTWARE"), Some(Type::Software));
    assert_eq!(cff_core::enum_match::match_type("Software"), Some(Type::Software));
    assert_eq!(cff_core::enum_match::match_type("paper"), None);
    assert_eq!(cff_core::enum_match::match_license("unlicense"), Some(License::Unlicense));
    assert_eq!(cff_core::enum_match::match_license("GPL-3.0"), Some(License::Gpl30));
    assert_eq!(cff_core::enum_match::match_license("WTFPL"), None);
}

#[test]
fn alias_resolver_is_case_sensitive() {
    assert_eq!(resolve_field("title"), Some(FieldId::Title));
    assert_eq!(resolve_field("Title"), None);
    assert_eq!(resolve_field("cff-version"), Some(FieldId::SchemaVersion));
    assert_eq!(resolve_field("cff_version"), Some(FieldId::SchemaVersion));
    assert_eq!(resolve_field("cffversion"), None);
}

#[test]
fn optional_scalars_carry_through() {
    let mut es = minimal_entries();
    es.push(e("abstract", t("What it does.")));
    es.push(e("commit", t("deadbeef")));
    es.push(e("doi", t("10.5281/zenodo.1")));
    es.push(e("version", t("2.0.1")));
    es.push(e("contact", Node::Rec(vec![])));
    let (c, _) = expect_ok(&Node::Rec(es));
    assert_eq!(c.abstract_text, Some("What it does.".to_string()));
    assert_eq!(c.commit, Some("deadbeef".to_string()));
    assert_eq!(c.doi, Some("10.5281/zenodo.1".to_string()));
    assert_eq!(c.version, Some("2.0.1".to_string()));
    assert!(c.contact.is_some());
}
