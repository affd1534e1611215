//! The document decoder: maps a raw document tree onto the typed citation
//! model, collecting every field-level error instead of stopping at the
//! first.

use vstd::prelude::*;
use crate::author::{ambiguous_author, author_ok, decode_author, spec_author, unrecognized_author};
use crate::dates::date_pattern_ok;
use crate::dates::check_date_pattern;
use crate::enum_match::{license_of_token, match_license, match_type, type_of_token};
use crate::errors::{count_kind, finding, has_at, has_top, ErrorKind, Finding, Severity};
use crate::fields::{canon_name, canon_of, doc_has_key, field_of, lookup_field, resolve_field,
    spec_lookup, unknown_count, FieldId};
use crate::model::{view_opt_text, Author, AuthorView, Citation, CitationView, Contact,
    Identifier, License, Reference, Type};
use crate::node::{Entry, Node};

verus! {

/// The format-defined default for the `message` field.
pub open spec fn default_message() -> Seq<char> {
    "If you use this software, please cite it using the metadata from this file."@
}

/// A required scalar field: present, text, and non-empty.
pub open spec fn req_text_ok(es: Seq<Entry>, f: FieldId) -> bool {
    match spec_lookup(es, f) {
        Some(n) => n is Text && n.text().len() > 0,
        None => false,
    }
}

/// The text of a present text field.
pub open spec fn spec_text(es: Seq<Entry>, f: FieldId) -> Seq<char> {
    spec_lookup(es, f)->Some_0.text()
}

/// The `message` field: may be absent (the default applies), must be text
/// when present.
pub open spec fn message_ok(es: Seq<Entry>) -> bool {
    match spec_lookup(es, FieldId::Message) {
        None => true,
        Some(n) => n is Text,
    }
}

/// The decoded message: the field's text, or the format-defined default.
pub open spec fn spec_message(es: Seq<Entry>) -> Seq<char> {
    match spec_lookup(es, FieldId::Message) {
        None => default_message(),
        Some(n) => n.text(),
    }
}

/// An optional scalar field: absent, or text.
pub open spec fn opt_text_ok(es: Seq<Entry>, f: FieldId) -> bool {
    match spec_lookup(es, f) {
        None => true,
        Some(n) => n is Text,
    }
}

/// The value of an optional text field.
pub open spec fn spec_opt_text(es: Seq<Entry>, f: FieldId) -> Option<Seq<char>> {
    match spec_lookup(es, f) {
        None => None,
        Some(n) => Some(n.text()),
    }
}

/// The release date: absent, or text matching the year-month-day pattern.
pub open spec fn date_ok(es: Seq<Entry>) -> bool {
    match spec_lookup(es, FieldId::DateReleased) {
        None => true,
        Some(n) => n is Text && date_pattern_ok(n.text()),
    }
}

/// The work type: absent (the default applies), or a token of the closed
/// type enumeration.
pub open spec fn type_ok(es: Seq<Entry>) -> bool {
    match spec_lookup(es, FieldId::WorkType) {
        None => true,
        Some(n) => n is Text && type_of_token(n.text()) is Some,
    }
}

/// Whether the type field carries a text token that matches no variant.
pub open spec fn type_token_bad(es: Seq<Entry>) -> bool {
    match spec_lookup(es, FieldId::WorkType) {
        Some(n) => n is Text && type_of_token(n.text()) is None,
        None => false,
    }
}

/// The decoded work type; `Software` when the field is absent.
pub open spec fn spec_type(es: Seq<Entry>) -> Type {
    match spec_lookup(es, FieldId::WorkType) {
        None => Type::Software,
        Some(n) => type_of_token(n.text())->Some_0,
    }
}

/// The license field: absent, one token, or a list of tokens, each a member
/// of the closed SPDX set.
pub open spec fn license_ok(es: Seq<Entry>) -> bool {
    match spec_lookup(es, FieldId::License) {
        None => true,
        Some(n) => if n is Text {
            license_of_token(n.text()) is Some
        } else if n is List {
            forall|i: int|
                0 <= i < n.items().len() ==> n.items()[i] is Text && license_of_token(
                    n.items()[i].text(),
                ) is Some
        } else {
            false
        },
    }
}

/// The decoded licenses, in document order; their relationship is a
/// disjunction.
pub open spec fn spec_licenses(es: Seq<Entry>) -> Seq<License> {
    match spec_lookup(es, FieldId::License) {
        None => Seq::<License>::empty(),
        Some(n) => if n is Text {
            seq![license_of_token(n.text())->Some_0]
        } else {
            Seq::new(n.items().len(), |i: int| license_of_token(n.items()[i].text())->Some_0)
        },
    }
}

/// The contact field: absent, or a mapping.
pub open spec fn contact_ok(es: Seq<Entry>) -> bool {
    match spec_lookup(es, FieldId::Contact) {
        None => true,
        Some(n) => n is Rec,
    }
}

/// Whether the contact field is present (and well-shaped).
pub open spec fn spec_contact(es: Seq<Entry>) -> Option<Contact> {
    match spec_lookup(es, FieldId::Contact) {
        None => None,
        Some(n) => Some(Contact {  }),
    }
}

/// The keywords field: absent, or a list of text.
pub open spec fn keywords_ok(es: Seq<Entry>) -> bool {
    match spec_lookup(es, FieldId::Keywords) {
        None => true,
        Some(n) => n is List && forall|i: int|
            0 <= i < n.items().len() ==> n.items()[i] is Text,
    }
}

/// The decoded keywords; absence is an empty sequence.
pub open spec fn spec_keywords(es: Seq<Entry>) -> Seq<Seq<char>> {
    match spec_lookup(es, FieldId::Keywords) {
        None => Seq::<Seq<char>>::empty(),
        Some(n) => Seq::new(n.items().len(), |i: int| n.items()[i].text()),
    }
}

/// A record-list field (`identifiers`, `references`): absent, or a list of
/// mappings.
pub open spec fn rec_list_ok(es: Seq<Entry>, f: FieldId) -> bool {
    match spec_lookup(es, f) {
        None => true,
        Some(n) => n is List && forall|i: int| 0 <= i < n.items().len() ==> n.items()[i] is Rec,
    }
}

/// How many records a record-list field carries; absence counts zero.
pub open spec fn rec_list_len(es: Seq<Entry>, f: FieldId) -> nat {
    match spec_lookup(es, f) {
        None => 0,
        Some(n) => n.items().len(),
    }
}

/// The authors field: present, a non-empty list, every element a well-shaped
/// author record.
pub open spec fn authors_ok(es: Seq<Entry>) -> bool {
    match spec_lookup(es, FieldId::Authors) {
        Some(n) => n is List && n.items().len() > 0 && forall|i: int|
            0 <= i < n.items().len() ==> author_ok(n.items()[i]),
        None => false,
    }
}

/// The decoded author sequence.
pub open spec fn spec_authors(es: Seq<Entry>) -> Seq<AuthorView> {
    let n = spec_lookup(es, FieldId::Authors)->Some_0;
    Seq::new(n.items().len(), |i: int| spec_author(n.items()[i]))
}

/// Whether the whole document decodes: every field check passes, and under
/// strict mode no unknown top-level key exists.
pub open spec fn doc_decodes(es: Seq<Entry>, strict: bool) -> bool {
    &&& req_text_ok(es, FieldId::Title)
    &&& req_text_ok(es, FieldId::SchemaVersion)
    &&& message_ok(es)
    &&& authors_ok(es)
    &&& opt_text_ok(es, FieldId::Abstract)
    &&& opt_text_ok(es, FieldId::Commit)
    &&& opt_text_ok(es, FieldId::Doi)
    &&& opt_text_ok(es, FieldId::LicenseUrl)
    &&& opt_text_ok(es, FieldId::PreferredCitation)
    &&& opt_text_ok(es, FieldId::Repository)
    &&& opt_text_ok(es, FieldId::RepositoryArtifact)
    &&& opt_text_ok(es, FieldId::RepositoryCode)
    &&& opt_text_ok(es, FieldId::Url)
    &&& opt_text_ok(es, FieldId::Version)
    &&& date_ok(es)
    &&& type_ok(es)
    &&& license_ok(es)
    &&& contact_ok(es)
    &&& keywords_ok(es)
    &&& rec_list_ok(es, FieldId::Identifiers)
    &&& rec_list_ok(es, FieldId::References)
    &&& (strict ==> unknown_count(es) == 0)
}

/// The citation a decodable document denotes.
pub open spec fn spec_citation(es: Seq<Entry>) -> CitationView
    recommends
        exists|strict: bool| doc_decodes(es, strict),
{
    CitationView {
        abstract_text: spec_opt_text(es, FieldId::Abstract),
        authors: spec_authors(es),
        schema_version: spec_text(es, FieldId::SchemaVersion),
        commit: spec_opt_text(es, FieldId::Commit),
        contact: spec_contact(es),
        date_released: spec_opt_text(es, FieldId::DateReleased),
        doi: spec_opt_text(es, FieldId::Doi),
        identifiers: Seq::new(rec_list_len(es, FieldId::Identifiers), |i: int| Identifier {  }),
        keywords: spec_keywords(es),
        license: spec_licenses(es),
        license_url: spec_opt_text(es, FieldId::LicenseUrl),
        message: spec_message(es),
        preferred_citation: spec_opt_text(es, FieldId::PreferredCitation),
        references: Seq::new(rec_list_len(es, FieldId::References), |i: int| Reference {  }),
        repository: spec_opt_text(es, FieldId::Repository),
        repository_artifact: spec_opt_text(es, FieldId::RepositoryArtifact),
        repository_code: spec_opt_text(es, FieldId::RepositoryCode),
        title: spec_text(es, FieldId::Title),
        work_type: spec_type(es),
        url: spec_opt_text(es, FieldId::Url),
        version: spec_opt_text(es, FieldId::Version),
    }
}

/// Takes a required non-empty text field, or records exactly one error.
fn take_req_text(entries: &Vec<Entry>, f: FieldId, errs: &mut Vec<Finding>, strict: Ghost<
    bool,
>) -> (r: Option<String>)
    requires
        f == FieldId::Title || f == FieldId::SchemaVersion,
    ensures
        all_classified(old(errs)@, entries@, strict@) ==> all_classified(
            final(errs)@,
            entries@,
            strict@,
        ),
        r is Some <==> req_text_ok(entries@, f),
        r matches Some(s) ==> s@ == spec_text(entries@, f),
        req_text_ok(entries@, f) ==> final(errs)@ == old(errs)@,
        forall|j: int| 0 <= j < old(errs)@.len() ==> final(errs)@[j] == old(errs)@[j],
        !req_text_ok(entries@, f) ==> final(errs)@.len() == old(errs)@.len() + 1 && {
            let nf = final(errs)@[old(errs)@.len() as int];
            &&& nf.field@ == canon_of(f)
            &&& nf.index is None
            &&& nf.severity is Error
            &&& nf.kind == (match spec_lookup(entries@, f) {
                None => ErrorKind::MissingRequiredField,
                Some(n) => if !(n is Text) {
                    ErrorKind::TypeMismatch
                } else {
                    ErrorKind::FormatViolation
                },
            })
        },
{
    match lookup_field(entries, f) {
        Some(Node::Text(s)) => {
            if s.as_str().unicode_len() > 0 {
                Some(s.clone())
            } else {
                errs.push(
                    finding(ErrorKind::FormatViolation, Severity::Error, canon_name(f), None, None),
                );
                None
            }
        },
        Some(_) => {
            errs.push(finding(ErrorKind::TypeMismatch, Severity::Error, canon_name(f), None, None));
            None
        },
        None => {
            errs.push(
                finding(ErrorKind::MissingRequiredField, Severity::Error, canon_name(f), None, None),
            );
            None
        },
    }
}

/// Takes the `message` field, substituting the format default when absent,
/// or records exactly one error when it is present but not text.
fn take_message(entries: &Vec<Entry>, errs: &mut Vec<Finding>, strict: Ghost<bool>) -> (r:
    Option<String>)
    ensures
        all_classified(old(errs)@, entries@, strict@) ==> all_classified(
            final(errs)@,
            entries@,
            strict@,
        ),
        r is Some <==> message_ok(entries@),
        r matches Some(s) ==> s@ == spec_message(entries@),
        message_ok(entries@) ==> final(errs)@ == old(errs)@,
        forall|j: int| 0 <= j < old(errs)@.len() ==> final(errs)@[j] == old(errs)@[j],
        !message_ok(entries@) ==> final(errs)@.len() == old(errs)@.len() + 1 && {
            let nf = final(errs)@[old(errs)@.len() as int];
            &&& nf.field@ == canon_of(FieldId::Message)
            &&& nf.index is None
            &&& nf.severity is Error
            &&& nf.kind == ErrorKind::TypeMismatch
        },
{
    match lookup_field(entries, FieldId::Message) {
        Some(Node::Text(s)) => Some(s.clone()),
        Some(_) => {
            errs.push(
                finding(
                    ErrorKind::TypeMismatch,
                    Severity::Error,
                    canon_name(FieldId::Message),
                    None,
                    None,
                ),
            );
            None
        },
        None => Some(
            "If you use this software, please cite it using the metadata from this file.".to_owned(),
        ),
    }
}

/// Takes an optional text field; the flag says whether the field was
/// well-shaped.
fn take_opt_text(entries: &Vec<Entry>, f: FieldId, errs: &mut Vec<Finding>, strict: Ghost<
    bool,
>) -> (r: (bool, Option<String>))
    ensures
        all_classified(old(errs)@, entries@, strict@) ==> all_classified(
            final(errs)@,
            entries@,
            strict@,
        ),
        r.0 <==> opt_text_ok(entries@, f),
        r.0 ==> view_opt_text(r.1) == spec_opt_text(entries@, f),
        opt_text_ok(entries@, f) ==> final(errs)@ == old(errs)@,
        forall|j: int| 0 <= j < old(errs)@.len() ==> final(errs)@[j] == old(errs)@[j],
        !opt_text_ok(entries@, f) ==> final(errs)@.len() == old(errs)@.len() + 1 && {
            let nf = final(errs)@[old(errs)@.len() as int];
            &&& nf.field@ == canon_of(f)
            &&& nf.index is None
            &&& nf.severity is Error
            &&& nf.kind == ErrorKind::TypeMismatch
        },
{
    match lookup_field(entries, f) {
        Some(Node::Text(s)) => (true, Some(s.clone())),
        Some(_) => {
            errs.push(finding(ErrorKind::TypeMismatch, Severity::Error, canon_name(f), None, None));
            (false, None)
        },
        None => (true, None),
    }
}

/// Takes the release date: optional text that must match the year-month-day
/// pattern.
fn take_date(entries: &Vec<Entry>, errs: &mut Vec<Finding>, strict: Ghost<bool>) -> (r: (
    bool,
    Option<String>,
))
    ensures
        all_classified(old(errs)@, entries@, strict@) ==> all_classified(
            final(errs)@,
            entries@,
            strict@,
        ),
        r.0 <==> date_ok(entries@),
        r.0 ==> view_opt_text(r.1) == spec_opt_text(entries@, FieldId::DateReleased),
        date_ok(entries@) ==> final(errs)@ == old(errs)@,
        forall|j: int| 0 <= j < old(errs)@.len() ==> final(errs)@[j] == old(errs)@[j],
        !date_ok(entries@) ==> final(errs)@.len() == old(errs)@.len() + 1 && {
            let nf = final(errs)@[old(errs)@.len() as int];
            &&& nf.field@ == canon_of(FieldId::DateReleased)
            &&& nf.index is None
            &&& nf.severity is Error
            &&& nf.kind == (match spec_lookup(entries@, FieldId::DateReleased) {
                Some(n) => if n is Text {
                    ErrorKind::FormatViolation
                } else {
                    ErrorKind::TypeMismatch
                },
                None => ErrorKind::TypeMismatch,
            })
        },
{
    match lookup_field(entries, FieldId::DateReleased) {
        Some(Node::Text(s)) => {
            if check_date_pattern(s.as_str()) {
                (true, Some(s.clone()))
            } else {
                errs.push(
                    finding(
                        ErrorKind::FormatViolation,
                        Severity::Error,
                        canon_name(FieldId::DateReleased),
                        None,
                        None,
                    ),
                );
                (false, None)
            }
        },
        Some(_) => {
            errs.push(
                finding(
                    ErrorKind::TypeMismatch,
                    Severity::Error,
                    canon_name(FieldId::DateReleased),
                    None,
                    None,
                ),
            );
            (false, None)
        },
        None => (true, None),
    }
}

/// Takes the work type, defaulting to `Software` when absent, or records
/// exactly one error.
fn take_type(entries: &Vec<Entry>, errs: &mut Vec<Finding>, strict: Ghost<bool>) -> (r: Option<
    Type,
>)
    ensures
        all_classified(old(errs)@, entries@, strict@) ==> all_classified(
            final(errs)@,
            entries@,
            strict@,
        ),
        r is Some <==> type_ok(entries@),
        r matches Some(t) ==> t == spec_type(entries@),
        type_ok(entries@) ==> final(errs)@ == old(errs)@,
        forall|j: int| 0 <= j < old(errs)@.len() ==> final(errs)@[j] == old(errs)@[j],
        !type_ok(entries@) ==> final(errs)@.len() == old(errs)@.len() + 1 && {
            let nf = final(errs)@[old(errs)@.len() as int];
            &&& nf.field@ == canon_of(FieldId::WorkType)
            &&& nf.index is None
            &&& nf.severity is Error
            &&& nf.kind == (if type_token_bad(entries@) {
                ErrorKind::InvalidEnumValue
            } else {
                ErrorKind::TypeMismatch
            })
            &&& (type_token_bad(entries@) ==> (nf.token matches Some(t) && t@ == spec_lookup(
                entries@,
                FieldId::WorkType,
            )->Some_0.text()))
        },
{
    match lookup_field(entries, FieldId::WorkType) {
        Some(Node::Text(s)) => {
            match match_type(s.as_str()) {
                Some(t) => Some(t),
                None => {
                    errs.push(
                        finding(
                            ErrorKind::InvalidEnumValue,
                            Severity::Error,
                            canon_name(FieldId::WorkType),
                            None,
                            Some(s.clone()),
                        ),
                    );
                    None
                },
            }
        },
        Some(_) => {
            errs.push(
                finding(
                    ErrorKind::TypeMismatch,
                    Severity::Error,
                    canon_name(FieldId::WorkType),
                    None,
                    None,
                ),
            );
            None
        },
        None => Some(Type::Software),
    }
}

/// Takes the contact record.
fn take_contact(entries: &Vec<Entry>, errs: &mut Vec<Finding>, strict: Ghost<bool>) -> (r: (
    bool,
    Option<Contact>,
))
    ensures
        all_classified(old(errs)@, entries@, strict@) ==> all_classified(
            final(errs)@,
            entries@,
            strict@,
        ),
        r.0 <==> contact_ok(entries@),
        r.0 ==> r.1 == spec_contact(entries@),
        contact_ok(entries@) ==> final(errs)@ == old(errs)@,
        forall|j: int| 0 <= j < old(errs)@.len() ==> final(errs)@[j] == old(errs)@[j],
        !contact_ok(entries@) ==> final(errs)@.len() == old(errs)@.len() + 1 && {
            let nf = final(errs)@[old(errs)@.len() as int];
            &&& nf.field@ == canon_of(FieldId::Contact)
            &&& nf.index is None
            &&& nf.severity is Error
            &&& nf.kind == ErrorKind::TypeMismatch
        },
{
    match lookup_field(entries, FieldId::Contact) {
        Some(Node::Rec(_)) => (true, Some(Contact {  })),
        Some(_) => {
            errs.push(
                finding(
                    ErrorKind::TypeMismatch,
                    Severity::Error,
                    canon_name(FieldId::Contact),
                    None,
                    None,
                ),
            );
            (false, None)
        },
        None => (true, None),
    }
}

/// Takes the license disjunction: one token or a list of tokens, each
/// resolved against the closed SPDX set; unknown tokens are never dropped
/// silently.
fn take_licenses(entries: &Vec<Entry>, errs: &mut Vec<Finding>, strict: Ghost<bool>) -> (r:
    Option<Vec<License>>)
    ensures
        all_classified(old(errs)@, entries@, strict@) ==> all_classified(
            final(errs)@,
            entries@,
            strict@,
        ),
        r is Some <==> license_ok(entries@),
        r matches Some(v) ==> v@ == spec_licenses(entries@),
        license_ok(entries@) ==> final(errs)@ == old(errs)@,
        forall|j: int| 0 <= j < old(errs)@.len() ==> final(errs)@[j] == old(errs)@[j],
        !license_ok(entries@) ==> final(errs)@.len() > old(errs)@.len(),
        forall|j: int|
            old(errs)@.len() <= j < final(errs)@.len() ==> final(errs)@[j].field@ == canon_of(
                FieldId::License,
            ) && final(errs)@[j].severity is Error && (final(errs)@[j].kind is TypeMismatch
                || final(errs)@[j].kind is InvalidEnumValue) && (final(errs)@[j].kind
                is InvalidEnumValue ==> final(errs)@[j].token is Some),
        (spec_lookup(entries@, FieldId::License) is Some && spec_lookup(
            entries@,
            FieldId::License,
        )->Some_0 is Text && license_of_token(
            spec_lookup(entries@, FieldId::License)->Some_0.text(),
        ) is None) ==> final(errs)@.len() == old(errs)@.len() + 1
            && (final(errs)@[old(errs)@.len() as int].token matches Some(t)
                && t@ == spec_lookup(entries@, FieldId::License)->Some_0.text()),
{
    match lookup_field(entries, FieldId::License) {
        None => {
            let v: Vec<License> = Vec::new();
            proof {
                assert(v@ =~= spec_licenses(entries@));
            }
            Some(v)
        },
        Some(Node::Text(s)) => {
            match match_license(s.as_str()) {
                Some(l) => {
                    let mut v: Vec<License> = Vec::new();
                    v.push(l);
                    proof {
                        assert(v@ =~= spec_licenses(entries@));
                    }
                    Some(v)
                },
                None => {
                    errs.push(
                        finding(
                            ErrorKind::InvalidEnumValue,
                            Severity::Error,
                            canon_name(FieldId::License),
                            None,
                            Some(s.clone()),
                        ),
                    );
                    None
                },
            }
        },
        Some(Node::List(items)) => {
            let ghost iv = items@;
            let mut v: Vec<License> = Vec::new();
            let mut any_bad = false;
            let mut i: usize = 0;
            while i < items.len()
                invariant
                    items@ == iv,
                    spec_lookup(entries@, FieldId::License) == Some(Node::List(*items)),
                    i <= iv.len(),
                    !any_bad ==> v@.len() == i && forall|k: int|
                        0 <= k < i ==> iv[k] is Text && license_of_token(iv[k].text()) is Some
                            && v@[k] == license_of_token(iv[k].text())->Some_0,
                    any_bad <==> exists|k: int|
                        0 <= k < i && !(iv[k] is Text && license_of_token(iv[k].text()) is Some),
                    forall|j: int| 0 <= j < old(errs)@.len() ==> errs@[j] == old(errs)@[j],
                    !any_bad ==> errs@.len() == old(errs)@.len(),
                    any_bad ==> errs@.len() > old(errs)@.len(),
                    forall|j: int|
                        old(errs)@.len() <= j < errs@.len() ==> errs@[j].field@ == canon_of(
                            FieldId::License,
                        ) && errs@[j].severity is Error && (errs@[j].kind is TypeMismatch
                            || errs@[j].kind is InvalidEnumValue) && (errs@[j].kind
                            is InvalidEnumValue ==> errs@[j].token is Some),
                decreases iv.len() - i,
            {
                match &items[i] {
                    Node::Text(s) => {
                        match match_license(s.as_str()) {
                            Some(l) => {
                                v.push(l);
                            },
                            None => {
                                errs.push(
                                    finding(
                                        ErrorKind::InvalidEnumValue,
                                        Severity::Error,
                                        canon_name(FieldId::License),
                                        Some(i),
                                        Some(s.clone()),
                                    ),
                                );
                                any_bad = true;
                            },
                        }
                    },
                    _ => {
                        errs.push(
                            finding(
                                ErrorKind::TypeMismatch,
                                Severity::Error,
                                canon_name(FieldId::License),
                                Some(i),
                                None,
                            ),
                        );
                        any_bad = true;
                    },
                }
                i += 1;
            }
            if any_bad {
                None
            } else {
                proof {
                    assert(v@ =~= spec_licenses(entries@));
                }
                Some(v)
            }
        },
        Some(_) => {
            errs.push(
                finding(
                    ErrorKind::TypeMismatch,
                    Severity::Error,
                    canon_name(FieldId::License),
                    None,
                    None,
                ),
            );
            None
        },
    }
}

/// Takes the keyword list; absence decodes as an empty list.
fn take_keywords(entries: &Vec<Entry>, errs: &mut Vec<Finding>, strict: Ghost<bool>) -> (r:
    Option<Vec<String>>)
    ensures
        all_classified(old(errs)@, entries@, strict@) ==> all_classified(
            final(errs)@,
            entries@,
            strict@,
        ),
        r is Some <==> keywords_ok(entries@),
        r matches Some(v) ==> v@.len() == spec_keywords(entries@).len() && forall|i: int|
            0 <= i < v@.len() ==> v@[i]@ == spec_keywords(entries@)[i],
        keywords_ok(entries@) ==> final(errs)@ == old(errs)@,
        forall|j: int| 0 <= j < old(errs)@.len() ==> final(errs)@[j] == old(errs)@[j],
        !keywords_ok(entries@) ==> final(errs)@.len() > old(errs)@.len(),
        forall|j: int|
            old(errs)@.len() <= j < final(errs)@.len() ==> final(errs)@[j].field@ == canon_of(
                FieldId::Keywords,
            ) && final(errs)@[j].severity is Error && final(errs)@[j].kind is TypeMismatch,
{
    match lookup_field(entries, FieldId::Keywords) {
        None => Some(Vec::new()),
        Some(Node::List(items)) => {
            let ghost iv = items@;
            let mut v: Vec<String> = Vec::new();
            let mut any_bad = false;
            let mut i: usize = 0;
            while i < items.len()
                invariant
                    items@ == iv,
                    spec_lookup(entries@, FieldId::Keywords) == Some(Node::List(*items)),
                    i <= iv.len(),
                    !any_bad ==> v@.len() == i && forall|k: int|
                        0 <= k < i ==> iv[k] is Text && v@[k]@ == iv[k].text(),
                    any_bad <==> exists|k: int| 0 <= k < i && !(iv[k] is Text),
                    forall|j: int| 0 <= j < old(errs)@.len() ==> errs@[j] == old(errs)@[j],
                    !any_bad ==> errs@.len() == old(errs)@.len(),
                    any_bad ==> errs@.len() > old(errs)@.len(),
                    forall|j: int|
                        old(errs)@.len() <= j < errs@.len() ==> errs@[j].field@ == canon_of(
                            FieldId::Keywords,
                        ) && errs@[j].severity is Error && errs@[j].kind is TypeMismatch,
                decreases iv.len() - i,
            {
                match &items[i] {
                    Node::Text(s) => {
                        v.push(s.clone());
                    },
                    _ => {
                        errs.push(
                            finding(
                                ErrorKind::TypeMismatch,
                                Severity::Error,
                                canon_name(FieldId::Keywords),
                                Some(i),
                                None,
                            ),
                        );
                        any_bad = true;
                    },
                }
                i += 1;
            }
            if any_bad {
                None
            } else {
                Some(v)
            }
        },
        Some(_) => {
            errs.push(
                finding(
                    ErrorKind::TypeMismatch,
                    Severity::Error,
                    canon_name(FieldId::Keywords),
                    None,
                    None,
                ),
            );
            None
        },
    }
}

/// Takes a record-list field (`identifiers` or `references`), returning how
/// many records it carries; absence counts zero.
fn take_rec_list(entries: &Vec<Entry>, f: FieldId, errs: &mut Vec<Finding>, strict: Ghost<
    bool,
>) -> (r: Option<usize>)
    ensures
        all_classified(old(errs)@, entries@, strict@) ==> all_classified(
            final(errs)@,
            entries@,
            strict@,
        ),
        r is Some <==> rec_list_ok(entries@, f),
        r matches Some(c) ==> c == rec_list_len(entries@, f),
        rec_list_ok(entries@, f) ==> final(errs)@ == old(errs)@,
        forall|j: int| 0 <= j < old(errs)@.len() ==> final(errs)@[j] == old(errs)@[j],
        !rec_list_ok(entries@, f) ==> final(errs)@.len() > old(errs)@.len(),
        forall|j: int|
            old(errs)@.len() <= j < final(errs)@.len() ==> final(errs)@[j].field@ == canon_of(f)
                && final(errs)@[j].severity is Error && final(errs)@[j].kind is TypeMismatch,
{
    match lookup_field(entries, f) {
        None => Some(0),
        Some(Node::List(items)) => {
            let ghost iv = items@;
            let mut any_bad = false;
            let mut i: usize = 0;
            while i < items.len()
                invariant
                    items@ == iv,
                    spec_lookup(entries@, f) == Some(Node::List(*items)),
                    i <= iv.len(),
                    any_bad <==> exists|k: int| 0 <= k < i && !(iv[k] is Rec),
                    forall|j: int| 0 <= j < old(errs)@.len() ==> errs@[j] == old(errs)@[j],
                    !any_bad ==> errs@.len() == old(errs)@.len(),
                    any_bad ==> errs@.len() > old(errs)@.len(),
                    forall|j: int|
                        old(errs)@.len() <= j < errs@.len() ==> errs@[j].field@ == canon_of(f)
                            && errs@[j].severity is Error && errs@[j].kind is TypeMismatch,
                decreases iv.len() - i,
            {
                match &items[i] {
                    Node::Rec(_) => {},
                    _ => {
                        errs.push(
                            finding(
                                ErrorKind::TypeMismatch,
                                Severity::Error,
                                canon_name(f),
                                Some(i),
                                None,
                            ),
                        );
                        any_bad = true;
                    },
                }
                i += 1;
            }
            if any_bad {
                None
            } else {
                Some(items.len())
            }
        },
        Some(_) => {
            errs.push(finding(ErrorKind::TypeMismatch, Severity::Error, canon_name(f), None, None));
            None
        },
    }
}

/// Builds the placeholder identifier records for a well-shaped list.
fn build_identifiers(n: usize) -> (v: Vec<Identifier>)
    ensures
        v@.len() == n,
        forall|i: int| 0 <= i < n ==> v@[i] == (Identifier {  }),
{
    let mut v: Vec<Identifier> = Vec::new();
    let mut i: usize = 0;
    while i < n
        invariant
            v@.len() == i,
            i <= n,
        decreases n - i,
    {
        v.push(Identifier {  });
        i += 1;
    }
    v
}

/// Builds the placeholder reference records for a well-shaped list.
fn build_references(n: usize) -> (v: Vec<Reference>)
    ensures
        v@.len() == n,
        forall|i: int| 0 <= i < n ==> v@[i] == (Reference {  }),
{
    let mut v: Vec<Reference> = Vec::new();
    let mut i: usize = 0;
    while i < n
        invariant
            v@.len() == i,
            i <= n,
        decreases n - i,
    {
        v.push(Reference {  });
        i += 1;
    }
    v
}

/// Takes the author list: required, non-empty, every element decoded through
/// the polymorphic record decoder; a failing element does not stop the
/// elements after it.
fn take_authors(entries: &Vec<Entry>, errs: &mut Vec<Finding>, strict: Ghost<bool>) -> (r:
    Option<Vec<Author>>)
    ensures
        all_classified(old(errs)@, entries@, strict@) ==> all_classified(
            final(errs)@,
            entries@,
            strict@,
        ),
        r is Some <==> authors_ok(entries@),
        r matches Some(v) ==> v@.len() == spec_authors(entries@).len() && forall|i: int|
            0 <= i < v@.len() ==> v@[i]@ == spec_authors(entries@)[i],
        authors_ok(entries@) ==> final(errs)@ == old(errs)@,
        forall|j: int| 0 <= j < old(errs)@.len() ==> final(errs)@[j] == old(errs)@[j],
        !authors_ok(entries@) ==> final(errs)@.len() > old(errs)@.len(),
        forall|j: int|
            old(errs)@.len() <= j < final(errs)@.len() ==> final(errs)@[j].field@ == canon_of(
                FieldId::Authors,
            ) && final(errs)@[j].severity is Error
                && (final(errs)@[j].kind is MissingRequiredField
                    || final(errs)@[j].kind is TypeMismatch
                    || final(errs)@[j].kind is FormatViolation
                    || final(errs)@[j].kind is AmbiguousVariant
                    || final(errs)@[j].kind is UnrecognizedVariant),
        spec_lookup(entries@, FieldId::Authors) is None
            ==> final(errs)@.len() == old(errs)@.len() + 1
                && final(errs)@[old(errs)@.len() as int].kind is MissingRequiredField
                && final(errs)@[old(errs)@.len() as int].index is None,
        (exists|j: int|
            old(errs)@.len() <= j < final(errs)@.len()
                && final(errs)@[j].index is None
                && final(errs)@[j].kind is MissingRequiredField)
            ==> spec_lookup(entries@, FieldId::Authors) is None,
        forall|j: int|
            old(errs)@.len() <= j < final(errs)@.len() && final(errs)@[j].index is None
                ==> (final(errs)@[j].kind is MissingRequiredField
                    || final(errs)@[j].kind is TypeMismatch
                    || final(errs)@[j].kind is FormatViolation),
        (match spec_lookup(entries@, FieldId::Authors) {
            Some(n) => n is List ==> forall|i: int|
                #![trigger n.items()[i]]
                0 <= i < n.items().len() ==> {
                &&& (ambiguous_author(n.items()[i]) ==> exists|j: int|
                    old(errs)@.len() <= j < final(errs)@.len()
                        && final(errs)@[j].kind is AmbiguousVariant
                        && final(errs)@[j].index is Some
                        && final(errs)@[j].index->0 as int == i)
                &&& (unrecognized_author(n.items()[i]) ==> exists|j: int|
                    old(errs)@.len() <= j < final(errs)@.len()
                        && final(errs)@[j].kind is UnrecognizedVariant
                        && final(errs)@[j].index is Some
                        && final(errs)@[j].index->0 as int == i)
            },
            None => true,
        }),
{
    match lookup_field(entries, FieldId::Authors) {
        None => {
            errs.push(
                finding(
                    ErrorKind::MissingRequiredField,
                    Severity::Error,
                    canon_name(FieldId::Authors),
                    None,
                    None,
                ),
            );
            proof {
                assert(errs@[old(errs)@.len() as int].kind is MissingRequiredField);
            }
            None
        },
        Some(Node::List(items)) => {
            if items.len() == 0 {
                errs.push(
                    finding(
                        ErrorKind::FormatViolation,
                        Severity::Error,
                        canon_name(FieldId::Authors),
                        None,
                        None,
                    ),
                );
                return None;
            }
            let ghost iv = items@;
            let mut v: Vec<Author> = Vec::new();
            let mut any_bad = false;
            let mut i: usize = 0;
            while i < items.len()
                invariant
                    items@ == iv,
                    spec_lookup(entries@, FieldId::Authors) == Some(Node::List(*items)),
                    i <= iv.len(),
                    !any_bad ==> v@.len() == i && forall|k: int|
                        0 <= k < i ==> author_ok(iv[k]) && v@[k]@ == spec_author(iv[k]),
                    any_bad <==> exists|k: int| 0 <= k < i && !author_ok(iv[k]),
                    forall|j: int| 0 <= j < old(errs)@.len() ==> errs@[j] == old(errs)@[j],
                    !any_bad ==> errs@.len() == old(errs)@.len(),
                    any_bad ==> errs@.len() > old(errs)@.len(),
                    forall|j: int|
                        old(errs)@.len() <= j < errs@.len() ==> errs@[j].field@ == canon_of(
                            FieldId::Authors,
                        ) && errs@[j].severity is Error && errs@[j].index is Some
                            && (errs@[j].index->0 as int) < i
                            && (errs@[j].kind is TypeMismatch
                                || errs@[j].kind is AmbiguousVariant
                                || errs@[j].kind is UnrecognizedVariant)
                            && (errs@[j].kind is AmbiguousVariant ==> ambiguous_author(
                            iv[errs@[j].index->0 as int],
                        ))
                            && (errs@[j].kind is UnrecognizedVariant ==> unrecognized_author(
                            iv[errs@[j].index->0 as int],
                        )),
                    forall|k: int|
                        #![trigger iv[k]]
                        0 <= k < i ==> {
                            &&& (ambiguous_author(iv[k]) ==> exists|j: int|
                                old(errs)@.len() <= j < errs@.len() && errs@[j].kind
                                    is AmbiguousVariant && errs@[j].index is Some
                                    && errs@[j].index->0 as int == k)
                            &&& (unrecognized_author(iv[k]) ==> exists|j: int|
                                old(errs)@.len() <= j < errs@.len() && errs@[j].kind
                                    is UnrecognizedVariant && errs@[j].index is Some
                                    && errs@[j].index->0 as int == k)
                        },
                decreases iv.len() - i,
            {
                let ghost pre = errs@;
                match decode_author(&items[i], i, errs) {
                    Some(a) => {
                        v.push(a);
                    },
                    None => {
                        any_bad = true;
                    },
                }
                proof {
                    if ambiguous_author(iv[i as int]) {
                        let j = choose|j: int|
                            pre.len() <= j < errs@.len() && errs@[j].kind is AmbiguousVariant;
                        assert(old(errs)@.len() <= j < errs@.len() && errs@[j].kind
                            is AmbiguousVariant && errs@[j].index is Some && errs@[j].index->0
                            as int == i as int);
                    }
                    if unrecognized_author(iv[i as int]) {
                        let j = choose|j: int|
                            pre.len() <= j < errs@.len() && errs@[j].kind is UnrecognizedVariant;
                        assert(old(errs)@.len() <= j < errs@.len() && errs@[j].kind
                            is UnrecognizedVariant && errs@[j].index is Some && errs@[j].index->0
                            as int == i as int);
                    }
                }
                i += 1;
            }
            if any_bad {
                None
            } else {
                Some(v)
            }
        },
        Some(_) => {
            errs.push(
                finding(
                    ErrorKind::TypeMismatch,
                    Severity::Error,
                    canon_name(FieldId::Authors),
                    None,
                    None,
                ),
            );
            None
        },
    }
}

/// Scans the top-level keys for ones unknown to the alias table: errors under
/// strict mode, warnings otherwise.
fn scan_unknown(entries: &Vec<Entry>, strict: bool, errs: &mut Vec<Finding>, warns: &mut Vec<
    Finding,
>)
    ensures
        strict ==> final(warns)@ == old(warns)@ && final(errs)@.len() == old(errs)@.len()
            + unknown_count(entries@),
        !strict ==> final(errs)@ == old(errs)@ && final(warns)@.len() == old(warns)@.len()
            + unknown_count(entries@),
        forall|j: int| 0 <= j < old(errs)@.len() ==> final(errs)@[j] == old(errs)@[j],
        forall|j: int| 0 <= j < old(warns)@.len() ==> final(warns)@[j] == old(warns)@[j],
        forall|j: int|
            old(errs)@.len() <= j < final(errs)@.len() ==> final(errs)@[j].kind is UnknownField
                && final(errs)@[j].severity is Error && final(errs)@[j].index is None && field_of(
                final(errs)@[j].field@,
            ) is None && doc_has_key(entries@, final(errs)@[j].field@),
        forall|j: int|
            old(warns)@.len() <= j < final(warns)@.len() ==> final(warns)@[j].kind is UnknownField
                && final(warns)@[j].severity is Warning && final(warns)@[j].index is None
                && field_of(final(warns)@[j].field@) is None && doc_has_key(
                entries@,
                final(warns)@[j].field@,
            ),
{
    proof {
        assert(entries@.skip(0) =~= entries@);
    }
    let mut i: usize = 0;
    while i < entries.len()
        invariant
            i <= entries@.len(),
            strict ==> warns@ == old(warns)@ && errs@.len() + unknown_count(
                entries@.skip(i as int),
            ) == old(errs)@.len() + unknown_count(entries@),
            !strict ==> errs@ == old(errs)@ && warns@.len() + unknown_count(
                entries@.skip(i as int),
            ) == old(warns)@.len() + unknown_count(entries@),
            old(errs)@.len() <= errs@.len(),
            old(warns)@.len() <= warns@.len(),
            forall|j: int| 0 <= j < old(errs)@.len() ==> errs@[j] == old(errs)@[j],
            forall|j: int| 0 <= j < old(warns)@.len() ==> warns@[j] == old(warns)@[j],
            forall|j: int|
                old(errs)@.len() <= j < errs@.len() ==> errs@[j].kind is UnknownField
                    && errs@[j].severity is Error && errs@[j].index is None && field_of(
                    errs@[j].field@,
                ) is None && doc_has_key(entries@, errs@[j].field@),
            forall|j: int|
                old(warns)@.len() <= j < warns@.len() ==> warns@[j].kind is UnknownField
                    && warns@[j].severity is Warning && warns@[j].index is None && field_of(
                    warns@[j].field@,
                ) is None && doc_has_key(entries@, warns@[j].field@),
        decreases entries@.len() - i,
    {
        proof {
            assert(entries@.skip(i as int)[0] == entries@[i as int]);
            assert(entries@.skip(i as int).drop_first() =~= entries@.skip(i as int + 1));
        }
        if resolve_field(entries[i].key.as_str()).is_none() {
            let sev = if strict {
                Severity::Error
            } else {
                Severity::Warning
            };
            let f = finding(ErrorKind::UnknownField, sev, entries[i].key.clone(), None, None);
            proof {
                assert(f.field@ == entries@[i as int].key@);
                assert(doc_has_key(entries@, f.field@));
            }
            if strict {
                errs.push(f);
            } else {
                warns.push(f);
            }
        }
        i += 1;
    }
    proof {
        assert(entries@.skip(i as int).len() == 0);
    }
}

/// A required scalar field that is present and text but empty.
pub open spec fn req_text_empty(es: Seq<Entry>, f: FieldId) -> bool {
    match spec_lookup(es, f) {
        Some(n) => n is Text && n.text().len() == 0,
        None => false,
    }
}

/// The authors field present as an empty list.
pub open spec fn authors_empty(es: Seq<Entry>) -> bool {
    match spec_lookup(es, FieldId::Authors) {
        Some(n) => n is List && n.items().len() == 0,
        None => false,
    }
}

/// The release date present as text that misses the year-month-day pattern.
pub open spec fn date_bad_pattern(es: Seq<Entry>) -> bool {
    match spec_lookup(es, FieldId::DateReleased) {
        Some(n) => n is Text && !date_pattern_ok(n.text()),
        None => false,
    }
}

/// What the field decoders guarantee of every finding they record: a
/// missing-field error only ever names a required field that really is
/// absent, an invalid enum value only the type or license field and only when
/// the token is really bad, a field-level format violation only an empty
/// required text, an empty author list or a pattern-bad date, a variant error
/// only an author element whose keys really select both or neither variant,
/// and never an unknown-key finding (only the key scan records those).
pub open spec fn finding_classified(f: Finding, es: Seq<Entry>, strict: bool) -> bool {
    &&& (f.kind is MissingRequiredField && f.index is None ==> {
        ||| (f.field@ == "title"@ && spec_lookup(es, FieldId::Title) is None)
        ||| (f.field@ == "cff-version"@ && spec_lookup(es, FieldId::SchemaVersion) is None)
        ||| (f.field@ == "authors"@ && spec_lookup(es, FieldId::Authors) is None)
    })
    &&& (f.kind is InvalidEnumValue && f.index is None ==> {
        ||| (f.field@ == "type"@ && type_token_bad(es))
        ||| f.field@ == "license"@
    })
    &&& (f.kind is FormatViolation && f.index is None ==> {
        ||| (f.field@ == "title"@ && req_text_empty(es, FieldId::Title))
        ||| (f.field@ == "cff-version"@ && req_text_empty(es, FieldId::SchemaVersion))
        ||| (f.field@ == "authors"@ && authors_empty(es))
        ||| (f.field@ == "date-released"@ && date_bad_pattern(es))
    })
    &&& (f.kind is AmbiguousVariant ==> f.field@ == "authors"@ && f.index is Some && (
    match spec_lookup(es, FieldId::Authors) {
        Some(n) => n is List && (f.index->0 as int) < n.items().len() && ambiguous_author(
            n.items()[f.index->0 as int],
        ),
        None => false,
    }))
    &&& (f.kind is UnrecognizedVariant ==> f.field@ == "authors"@ && f.index is Some && (
    match spec_lookup(es, FieldId::Authors) {
        Some(n) => n is List && (f.index->0 as int) < n.items().len() && unrecognized_author(
            n.items()[f.index->0 as int],
        ),
        None => false,
    }))
    &&& !(f.kind is UnknownField)
}

/// The classification above, over a whole error list.
pub open spec fn all_classified(fs: Seq<Finding>, es: Seq<Entry>, strict: bool) -> bool {
    forall|j: int| 0 <= j < fs.len() ==> finding_classified(fs[j], es, strict)
}

/// From the classification of the first `m` findings (everything the field
/// decoders recorded) and the fact that all findings after them are
/// unknown-key errors (everything the key scan recorded), no error list can
/// blame a field that is not at fault: a missing-field error names a
/// really-absent required field, `message` is never reported missing, an
/// invalid type token is really invalid, a date format violation is a really
/// pattern-bad date, a variant error points at an author element whose keys
/// really select both or neither variant, and the unknown-key errors are
/// exactly the tail.
proof fn lemma_err_reverse(fs: Seq<Finding>, m: int, es: Seq<Entry>, strict: bool)
    requires
        0 <= m <= fs.len(),
        forall|j: int| 0 <= j < m ==> finding_classified(fs[j], es, strict),
        forall|j: int| m <= j < fs.len() ==> fs[j].kind is UnknownField,
    ensures
        has_top(fs, ErrorKind::MissingRequiredField, "title"@) ==> spec_lookup(
            es,
            FieldId::Title,
        ) is None,
        has_top(fs, ErrorKind::MissingRequiredField, "cff-version"@) ==> spec_lookup(
            es,
            FieldId::SchemaVersion,
        ) is None,
        has_top(fs, ErrorKind::MissingRequiredField, "authors"@) ==> spec_lookup(
            es,
            FieldId::Authors,
        ) is None,
        !has_top(fs, ErrorKind::MissingRequiredField, "message"@),
        has_top(fs, ErrorKind::InvalidEnumValue, "type"@) ==> type_token_bad(es),
        has_top(fs, ErrorKind::FormatViolation, "date-released"@) ==> date_bad_pattern(es),
        forall|i: int|
            #[trigger] has_at(fs, ErrorKind::AmbiguousVariant, "authors"@, i) ==> (
            match spec_lookup(es, FieldId::Authors) {
                Some(n) => n is List && 0 <= i < n.items().len() && ambiguous_author(
                    n.items()[i],
                ),
                None => false,
            }),
        forall|i: int|
            #[trigger] has_at(fs, ErrorKind::UnrecognizedVariant, "authors"@, i) ==> (
            match spec_lookup(es, FieldId::Authors) {
                Some(n) => n is List && 0 <= i < n.items().len() && unrecognized_author(
                    n.items()[i],
                ),
                None => false,
            }),
        count_kind(fs, ErrorKind::UnknownField) == fs.len() - m,
{
    reveal_strlit("title");
    reveal_strlit("cff-version");
    reveal_strlit("authors");
    reveal_strlit("message");
    reveal_strlit("type");
    reveal_strlit("license");
    reveal_strlit("date-released");
    crate::errors::lemma_count_kind_split(fs, m, ErrorKind::UnknownField);
    if has_top(fs, ErrorKind::MissingRequiredField, "title"@) {
        assert(exists|j: int|
            0 <= j < fs.len() && fs[j].kind == ErrorKind::MissingRequiredField && fs[j].field@
                == "title"@ && fs[j].index is None);
        let j = choose|j: int|
            0 <= j < fs.len() && fs[j].kind == ErrorKind::MissingRequiredField && fs[j].field@
                == "title"@ && fs[j].index is None;
        assert(finding_classified(fs[j], es, strict));
        assert(fs[j].field@ != "cff-version"@);
        assert(fs[j].field@ != "authors"@);
        assert(spec_lookup(es, FieldId::Title) is None);
    }
    if has_top(fs, ErrorKind::MissingRequiredField, "cff-version"@) {
        assert(exists|j: int|
            0 <= j < fs.len() && fs[j].kind == ErrorKind::MissingRequiredField && fs[j].field@
                == "cff-version"@ && fs[j].index is None);
        let j = choose|j: int|
            0 <= j < fs.len() && fs[j].kind == ErrorKind::MissingRequiredField && fs[j].field@
                == "cff-version"@ && fs[j].index is None;
        assert(finding_classified(fs[j], es, strict));
        assert(spec_lookup(es, FieldId::SchemaVersion) is None);
    }
    if has_top(fs, ErrorKind::MissingRequiredField, "authors"@) {
        assert(exists|j: int|
            0 <= j < fs.len() && fs[j].kind == ErrorKind::MissingRequiredField && fs[j].field@
                == "authors"@ && fs[j].index is None);
        let j = choose|j: int|
            0 <= j < fs.len() && fs[j].kind == ErrorKind::MissingRequiredField && fs[j].field@
                == "authors"@ && fs[j].index is None;
        assert(finding_classified(fs[j], es, strict));
        assert(spec_lookup(es, FieldId::Authors) is None);
    }
    if has_top(fs, ErrorKind::MissingRequiredField, "message"@) {
        assert(exists|j: int|
            0 <= j < fs.len() && fs[j].kind == ErrorKind::MissingRequiredField && fs[j].field@
                == "message"@ && fs[j].index is None);
        let j = choose|j: int|
            0 <= j < fs.len() && fs[j].kind == ErrorKind::MissingRequiredField && fs[j].field@
                == "message"@ && fs[j].index is None;
        assert(finding_classified(fs[j], es, strict));
        assert(fs[j].field@ != "title"@);
        assert(fs[j].field@ != "cff-version"@);
        assert("message"@[0] != "authors"@[0]);
        assert(fs[j].field@ != "authors"@);
        assert(false);
    }
    if has_top(fs, ErrorKind::InvalidEnumValue, "type"@) {
        assert(exists|j: int|
            0 <= j < fs.len() && fs[j].kind == ErrorKind::InvalidEnumValue && fs[j].field@
                == "type"@ && fs[j].index is None);
        let j = choose|j: int|
            0 <= j < fs.len() && fs[j].kind == ErrorKind::InvalidEnumValue && fs[j].field@
                == "type"@ && fs[j].index is None;
        assert(finding_classified(fs[j], es, strict));
        assert(type_token_bad(es));
    }
    if has_top(fs, ErrorKind::FormatViolation, "date-released"@) {
        assert(exists|j: int|
            0 <= j < fs.len() && fs[j].kind == ErrorKind::FormatViolation && fs[j].field@
                == "date-released"@ && fs[j].index is None);
        let j = choose|j: int|
            0 <= j < fs.len() && fs[j].kind == ErrorKind::FormatViolation && fs[j].field@
                == "date-released"@ && fs[j].index is None;
        assert(finding_classified(fs[j], es, strict));
        assert(fs[j].field@ != "title"@);
        assert(fs[j].field@ != "cff-version"@);
        assert(fs[j].field@ != "authors"@);
        assert(date_bad_pattern(es));
    }
    assert forall|i: int|
        #[trigger] has_at(fs, ErrorKind::AmbiguousVariant, "authors"@, i) implies (
    match spec_lookup(es, FieldId::Authors) {
        Some(n) => n is List && 0 <= i < n.items().len() && ambiguous_author(n.items()[i]),
        None => false,
    }) by {
        let k = choose|k: int|
            0 <= k < fs.len() && fs[k].kind == ErrorKind::AmbiguousVariant && fs[k].field@
                == "authors"@ && fs[k].index is Some && fs[k].index->0 as int == i;
        assert(finding_classified(fs[k], es, strict));
    }
    assert forall|i: int|
        #[trigger] has_at(fs, ErrorKind::UnrecognizedVariant, "authors"@, i) implies (
    match spec_lookup(es, FieldId::Authors) {
        Some(n) => n is List && 0 <= i < n.items().len() && unrecognized_author(n.items()[i]),
        None => false,
    }) by {
        let k = choose|k: int|
            0 <= k < fs.len() && fs[k].kind == ErrorKind::UnrecognizedVariant && fs[k].field@
                == "authors"@ && fs[k].index is Some && fs[k].index->0 as int == i;
        assert(finding_classified(fs[k], es, strict));
    }
}

/// Everything a failed decode's error list is promised to contain, and not
/// to contain, for a mapping document: each containment holds exactly when
/// the document is at fault.
pub open spec fn err_list_characterized(e: Seq<Finding>, es: Seq<Entry>, strict: bool) -> bool {
    &&& (has_top(e, ErrorKind::MissingRequiredField, "title"@) <==> spec_lookup(
        es,
        FieldId::Title,
    ) is None)
    &&& (has_top(e, ErrorKind::MissingRequiredField, "cff-version"@) <==> spec_lookup(
        es,
        FieldId::SchemaVersion,
    ) is None)
    &&& (has_top(e, ErrorKind::MissingRequiredField, "authors"@) <==> spec_lookup(
        es,
        FieldId::Authors,
    ) is None)
    &&& !has_top(e, ErrorKind::MissingRequiredField, "message"@)
    &&& (has_top(e, ErrorKind::InvalidEnumValue, "type"@) <==> type_token_bad(es))
    &&& (type_token_bad(es) ==> exists|j: int|
        0 <= j < e.len() && (#[trigger] e[j].kind) is InvalidEnumValue && e[j].field@ == "type"@
            && e[j].index is None && (e[j].token matches Some(t) && t@ == spec_lookup(
            es,
            FieldId::WorkType,
        )->Some_0.text()))
    &&& (has_top(e, ErrorKind::FormatViolation, "date-released"@) <==> date_bad_pattern(es))
    &&& (match spec_lookup(es, FieldId::Authors) {
        Some(n) => n is List ==> forall|i: int|
            #![trigger n.items()[i]]
            0 <= i < n.items().len() ==> {
                &&& (has_at(e, ErrorKind::AmbiguousVariant, "authors"@, i) <==> ambiguous_author(
                    n.items()[i],
                ))
                &&& (has_at(e, ErrorKind::UnrecognizedVariant, "authors"@, i)
                    <==> unrecognized_author(n.items()[i]))
            },
        None => true,
    })
    &&& count_kind(e, ErrorKind::UnknownField) == (if strict {
        unknown_count(es)
    } else {
        0nat
    })
    &&& (forall|j: int|
        0 <= j < e.len() && (#[trigger] e[j].kind) is UnknownField ==> e[j].severity is Error
            && e[j].index is None && field_of(e[j].field@) is None && doc_has_key(es, e[j].field@))
}

/// Decodes a parsed document tree into a citation. Every field-level error is
/// collected across the whole document; only a root that is not a mapping
/// aborts at once. On zero errors the citation and the unknown-key warnings
/// are returned; otherwise the complete non-empty error list is, and no
/// partial citation ever escapes.
#[verifier::rlimit(100)]
pub fn decode(doc: &Node, strict: bool) -> (r: Result<(Citation, Vec<Finding>), Vec<Finding>>)
    ensures
        r is Ok <==> (*doc is Rec && doc_decodes(doc.entries(), strict)),
        r matches Ok((c, warns)) ==> c@ == spec_citation(doc.entries()) && c@.wf() && warns@.len()
            == (if strict {
            0nat
        } else {
            unknown_count(doc.entries())
        }) && forall|i: int|
            0 <= i < warns@.len() ==> warns@[i].kind is UnknownField && warns@[i].severity
                is Warning && field_of(warns@[i].field@) is None && doc_has_key(
                doc.entries(),
                warns@[i].field@,
            ),
        r matches Err(e) ==> e@.len() > 0,
        !(*doc is Rec) ==> (r matches Err(e) && e@.len() == 1 && e@[0].kind is StructuralFailure),
        *doc is Rec ==> (r matches Err(e) ==> err_list_characterized(e@, doc.entries(), strict)),
{
    let entries = match doc {
        Node::Rec(es) => es,
        _ => {
            let mut errs: Vec<Finding> = Vec::new();
            errs.push(
                finding(ErrorKind::StructuralFailure, Severity::Error, String::new(), None, None),
            );
            return Err(errs);
        },
    };
    let mut errs: Vec<Finding> = Vec::new();
    let mut warns: Vec<Finding> = Vec::new();
    proof {
        assert(all_classified(errs@, entries@, strict));
    }
    let title = take_req_text(entries, FieldId::Title, &mut errs, Ghost(strict));
    let ghost n_title = errs@.len();
    let schema_version = take_req_text(entries, FieldId::SchemaVersion, &mut errs, Ghost(strict));
    let message = take_message(entries, &mut errs, Ghost(strict));
    let ghost n_message = errs@.len();
    let abstract_text = take_opt_text(entries, FieldId::Abstract, &mut errs, Ghost(strict));
    let commit = take_opt_text(entries, FieldId::Commit, &mut errs, Ghost(strict));
    let doi = take_opt_text(entries, FieldId::Doi, &mut errs, Ghost(strict));
    let license_url = take_opt_text(entries, FieldId::LicenseUrl, &mut errs, Ghost(strict));
    let preferred_citation = take_opt_text(
        entries,
        FieldId::PreferredCitation,
        &mut errs,
        Ghost(strict),
    );
    let repository = take_opt_text(entries, FieldId::Repository, &mut errs, Ghost(strict));
    let repository_artifact = take_opt_text(
        entries,
        FieldId::RepositoryArtifact,
        &mut errs,
        Ghost(strict),
    );
    let repository_code = take_opt_text(
        entries,
        FieldId::RepositoryCode,
        &mut errs,
        Ghost(strict),
    );
    let url = take_opt_text(entries, FieldId::Url, &mut errs, Ghost(strict));
    let version = take_opt_text(entries, FieldId::Version, &mut errs, Ghost(strict));
    let ghost n_date_start = errs@.len();
    let date_released = take_date(entries, &mut errs, Ghost(strict));
    let ghost n_type_start = errs@.len();
    let work_type = take_type(entries, &mut errs, Ghost(strict));
    let license = take_licenses(entries, &mut errs, Ghost(strict));
    let contact = take_contact(entries, &mut errs, Ghost(strict));
    let keywords = take_keywords(entries, &mut errs, Ghost(strict));
    let identifier_count = take_rec_list(entries, FieldId::Identifiers, &mut errs, Ghost(strict));
    let reference_count = take_rec_list(entries, FieldId::References, &mut errs, Ghost(strict));
    let ghost n_authors_start = errs@.len();
    let authors = take_authors(entries, &mut errs, Ghost(strict));
    let ghost n_scan = errs@.len();
    let ghost pre_scan = errs@;
    scan_unknown(entries, strict, &mut errs, &mut warns);
    proof {
        reveal_strlit("title");
        reveal_strlit("cff-version");
        reveal_strlit("authors");
        reveal_strlit("message");
        reveal_strlit("type");
        reveal_strlit("license");
        reveal_strlit("abstract");
        reveal_strlit("commit");
        reveal_strlit("doi");
        reveal_strlit("license-url");
        reveal_strlit("preferred-citation");
        reveal_strlit("repository");
        reveal_strlit("repository-artifact");
        reveal_strlit("repository-code");
        reveal_strlit("url");
        reveal_strlit("version");
        reveal_strlit("date-released");
        reveal_strlit("contact");
        reveal_strlit("keywords");
        reveal_strlit("identifiers");
        reveal_strlit("references");
        reveal_strlit("cff_version");
        reveal_strlit("date_released");
        reveal_strlit("license_url");
        reveal_strlit("preferred_citation");
        reveal_strlit("repository_artifact");
        reveal_strlit("repository_code");
    }
    if errs.len() == 0 {
        let c = Citation {
            abstract_text: abstract_text.1,
            authors: authors.unwrap(),
            schema_version: schema_version.unwrap(),
            commit: commit.1,
            contact: contact.1,
            date_released: date_released.1,
            doi: doi.1,
            identifiers: build_identifiers(identifier_count.unwrap()),
            keywords: keywords.unwrap(),
            license: license.unwrap(),
            license_url: license_url.1,
            message: message.unwrap(),
            preferred_citation: preferred_citation.1,
            references: build_references(reference_count.unwrap()),
            repository: repository.1,
            repository_artifact: repository_artifact.1,
            repository_code: repository_code.1,
            title: title.unwrap(),
            work_type: work_type.unwrap(),
            url: url.1,
            version: version.1,
        };
        proof {
            assert(c@.authors =~= spec_citation(entries@).authors);
            assert(c@.keywords =~= spec_citation(entries@).keywords);
            assert(c@.identifiers =~= spec_citation(entries@).identifiers);
            assert(c@.references =~= spec_citation(entries@).references);
            assert(c@ =~~= spec_citation(entries@));
        }
        Ok((c, warns))
    } else {
        proof {
            let es = entries@;
            if spec_lookup(es, FieldId::Title) is None {
                assert(errs@[0].kind is MissingRequiredField && errs@[0].field@ == "title"@
                    && errs@[0].index is None);
            }
            if spec_lookup(es, FieldId::SchemaVersion) is None {
                assert(errs@[n_title as int].kind is MissingRequiredField
                    && errs@[n_title as int].field@ == "cff-version"@
                    && errs@[n_title as int].index is None);
            }
            if spec_lookup(es, FieldId::Authors) is None {
                assert(errs@[n_authors_start as int].kind is MissingRequiredField
                    && errs@[n_authors_start as int].field@ == "authors"@
                    && errs@[n_authors_start as int].index is None);
            }
            if date_bad_pattern(es) {
                assert(errs@[n_date_start as int].kind is FormatViolation
                    && errs@[n_date_start as int].field@ == "date-released"@
                    && errs@[n_date_start as int].index is None);
            }
            if type_token_bad(es) {
                assert(errs@[n_type_start as int].kind is InvalidEnumValue
                    && errs@[n_type_start as int].field@ == "type"@
                    && errs@[n_type_start as int].index is None
                    && (errs@[n_type_start as int].token matches Some(t) && t@ == spec_lookup(
                    es,
                    FieldId::WorkType,
                )->Some_0.text()));
            }
            let lookup_a = spec_lookup(es, FieldId::Authors);
            if lookup_a is Some && lookup_a->Some_0 is List {
                let n = lookup_a->Some_0;
                assert forall|i: int|
                    0 <= i < n.items().len() && ambiguous_author(n.items()[i]) implies has_at(
                    errs@,
                    ErrorKind::AmbiguousVariant,
                    "authors"@,
                    i,
                ) by {
                    let j = choose|j: int|
                        n_authors_start <= j < n_scan && pre_scan[j].kind is AmbiguousVariant
                            && pre_scan[j].index is Some && pre_scan[j].index->0 as int == i;
                    assert(errs@[j] == pre_scan[j]);
                    assert(errs@[j].field@ == "authors"@);
                }
                assert forall|i: int|
                    0 <= i < n.items().len() && unrecognized_author(n.items()[i]) implies has_at(
                    errs@,
                    ErrorKind::UnrecognizedVariant,
                    "authors"@,
                    i,
                ) by {
                    let j = choose|j: int|
                        n_authors_start <= j < n_scan && pre_scan[j].kind is UnrecognizedVariant
                            && pre_scan[j].index is Some && pre_scan[j].index->0 as int == i;
                    assert(errs@[j] == pre_scan[j]);
                    assert(errs@[j].field@ == "authors"@);
                }
            }
            assert(all_classified(pre_scan, es, strict));
            assert forall|j: int| 0 <= j < n_scan implies finding_classified(
                errs@[j],
                es,
                strict,
            ) by {
                assert(errs@[j] == pre_scan[j]);
            }
            lemma_err_reverse(errs@, n_scan as int, es, strict);
        }
        Err(errs)
    }
}

/// The single entry point of the pipeline: decodes the document tree and runs
/// every validation rule over the result. Success hands back the citation
/// together with all non-error findings (unknown-key warnings, advisories,
/// informational notes); a decode error or a hard validation violation hands
/// back the complete non-empty finding list instead, never a partial model.
pub fn check_document(doc: &Node, strict: bool) -> (r: Result<
    (Citation, Vec<Finding>),
    Vec<Finding>,
>)
    ensures
        r is Ok <==> (*doc is Rec && doc_decodes(doc.entries(), strict) && !crate::validate::any_error(
            crate::validate::spec_validate(spec_citation(doc.entries())),
        )),
        r matches Ok((c, fs)) ==> {
            let warn_len = if strict {
                0int
            } else {
                unknown_count(doc.entries()) as int
            };
            &&& c@ == spec_citation(doc.entries())
            &&& c@.wf()
            &&& fs@.len() == warn_len + crate::validate::spec_validate(c@).len()
            &&& fs@.map(|i: int, f: Finding| f@).skip(warn_len) == crate::validate::spec_validate(
                c@,
            )
            &&& forall|i: int|
                0 <= i < warn_len ==> fs@[i].kind is UnknownField && fs@[i].severity is Warning
        },
        r matches Err(e) ==> e@.len() > 0,
        !(*doc is Rec) ==> (r matches Err(e) && e@.len() == 1 && e@[0].kind is StructuralFailure),
        *doc is Rec && !doc_decodes(doc.entries(), strict) ==> (r matches Err(e)
            ==> err_list_characterized(e@, doc.entries(), strict)),
        *doc is Rec && doc_decodes(doc.entries(), strict) ==> (r matches Err(e) ==> {
            let warn_len = if strict {
                0int
            } else {
                unknown_count(doc.entries()) as int
            };
            &&& e@.len() == warn_len + crate::validate::spec_validate(
                spec_citation(doc.entries()),
            ).len()
            &&& e@.map(|i: int, f: Finding| f@).skip(warn_len) == crate::validate::spec_validate(
                spec_citation(doc.entries()),
            )
            &&& forall|i: int|
                0 <= i < warn_len ==> e@[i].kind is UnknownField && e@[i].severity is Warning
        }),
{
    match decode(doc, strict) {
        Ok((c, mut warns)) => {
            let mut vfs = crate::validate::validate(&c);
            let ghost vviews = vfs@.map(|i: int, f: Finding| f@);
            let mut has_error = false;
            let mut i: usize = 0;
            while i < vfs.len()
                invariant
                    vviews == vfs@.map(|k: int, f: Finding| f@),
                    i <= vfs@.len(),
                    has_error == exists|k: int| 0 <= k < i && vfs@[k].severity is Error,
                decreases vfs@.len() - i,
            {
                proof {
                    assert(vviews[i as int] == vfs@[i as int]@);
                }
                match vfs[i].severity {
                    Severity::Error => {
                        has_error = true;
                    },
                    _ => {},
                }
                i += 1;
            }
            proof {
                assert forall|k: int|
                    0 <= k < vviews.len() implies vviews[k].severity == vfs@[k].severity by {
                    assert(vviews[k] == vfs@[k]@);
                }
                if has_error {
                    let k = choose|k: int| 0 <= k < vfs@.len() && vfs@[k].severity is Error;
                    assert(vviews[k].severity is Error);
                }
                if crate::validate::any_error(vviews) {
                    let k = choose|k: int| 0 <= k < vviews.len() && vviews[k].severity is Error;
                    assert(vfs@[k].severity is Error);
                }
                assert(has_error == crate::validate::any_error(vviews));
            }
            let ghost w0 = warns@;
            warns.append(&mut vfs);
            if has_error {
                proof {
                    assert(warns@.len() > 0);
                    assert(warns@.map(|i: int, f: Finding| f@).skip(w0.len() as int)
                        =~~= crate::validate::spec_validate(c@));
                }
                Err(warns)
            } else {
                proof {
                    assert(warns@.map(|i: int, f: Finding| f@).skip(w0.len() as int)
                        =~~= crate::validate::spec_validate(c@));
                }
                Ok((c, warns))
            }
        },
        Err(errs) => Err(errs),
    }
}

} // verus!
