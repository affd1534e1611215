//! The polymorphic author decoder: selects the Person or Entity variant from
//! the keys present in a record, and decodes the chosen variant's fields.

use vstd::prelude::*;
use crate::errors::{finding, finding_with_keys, ErrorKind, Finding, Severity};
use crate::fields::{entry_keys, lookup_author_field, record_keys, spec_author_lookup, AuthorField};
use crate::model::{Author, AuthorView};
use crate::node::{Entry, Node};

verus! {

/// Whether the record's keys satisfy the Person variant's required-key set.
pub open spec fn person_selected(es: Seq<Entry>) -> bool {
    spec_author_lookup(es, AuthorField::GivenNames) is Some && spec_author_lookup(
        es,
        AuthorField::FamilyNames,
    ) is Some
}

/// Whether the record's keys satisfy the Entity variant's required-key set.
pub open spec fn entity_selected(es: Seq<Entry>) -> bool {
    spec_author_lookup(es, AuthorField::Name) is Some
}

/// Whether an optional author field is either absent or text.
pub open spec fn opt_author_text_ok(es: Seq<Entry>, f: AuthorField) -> bool {
    match spec_author_lookup(es, f) {
        None => true,
        Some(n) => n is Text,
    }
}

/// The text of an optional author field, when present.
pub open spec fn opt_author_text(es: Seq<Entry>, f: AuthorField) -> Option<Seq<char>> {
    match spec_author_lookup(es, f) {
        None => None,
        Some(n) => Some(n.text()),
    }
}

/// Whether a required author field is present and text.
pub open spec fn req_author_text_ok(es: Seq<Entry>, f: AuthorField) -> bool {
    match spec_author_lookup(es, f) {
        None => false,
        Some(n) => n is Text,
    }
}

/// The text of a required author field.
pub open spec fn req_author_text(es: Seq<Entry>, f: AuthorField) -> Seq<char> {
    spec_author_lookup(es, f)->Some_0.text()
}

/// A record satisfying both variants' required-key sets: never accepted.
pub open spec fn ambiguous_author(n: Node) -> bool {
    n is Rec && person_selected(n.entries()) && entity_selected(n.entries())
}

/// A record satisfying neither variant's required-key set: never accepted.
pub open spec fn unrecognized_author(n: Node) -> bool {
    n is Rec && !person_selected(n.entries()) && !entity_selected(n.entries())
}

/// Whether a record decodes as an author: exactly one variant's required-key
/// set is satisfied and the chosen variant's fields have the right shape.
pub open spec fn author_ok(n: Node) -> bool {
    &&& n is Rec
    &&& {
        let es = n.entries();
        if person_selected(es) && entity_selected(es) {
            false
        } else if person_selected(es) {
            &&& req_author_text_ok(es, AuthorField::GivenNames)
            &&& req_author_text_ok(es, AuthorField::FamilyNames)
            &&& opt_author_text_ok(es, AuthorField::Email)
            &&& opt_author_text_ok(es, AuthorField::Orcid)
        } else if entity_selected(es) {
            req_author_text_ok(es, AuthorField::Name)
        } else {
            false
        }
    }
}

/// The decoded author of a well-shaped record.
pub open spec fn spec_author(n: Node) -> AuthorView
    recommends
        author_ok(n),
{
    let es = n.entries();
    if person_selected(es) {
        AuthorView::Person {
            given_names: req_author_text(es, AuthorField::GivenNames),
            family_names: req_author_text(es, AuthorField::FamilyNames),
            email: opt_author_text(es, AuthorField::Email),
            orcid: opt_author_text(es, AuthorField::Orcid),
        }
    } else {
        AuthorView::Entity { name: req_author_text(es, AuthorField::Name) }
    }
}

/// Decodes the author record at element `idx` of the `authors` sequence,
/// collecting all of its field errors instead of stopping at the first.
pub fn decode_author(n: &Node, idx: usize, errs: &mut Vec<Finding>) -> (r: Option<Author>)
    ensures
        r is Some <==> author_ok(*n),
        r matches Some(a) ==> a@ == spec_author(*n),
        author_ok(*n) ==> final(errs)@ == old(errs)@,
        !author_ok(*n) ==> final(errs)@.len() > old(errs)@.len(),
        forall|j: int| 0 <= j < old(errs)@.len() ==> final(errs)@[j] == old(errs)@[j],
        forall|j: int|
            old(errs)@.len() <= j < final(errs)@.len() ==> final(errs)@[j].field@ == "authors"@
                && final(errs)@[j].index == Some(idx) && final(errs)@[j].severity is Error
                && (final(errs)@[j].kind is AmbiguousVariant
                    || final(errs)@[j].kind is UnrecognizedVariant
                    || final(errs)@[j].kind is TypeMismatch),
        (exists|j: int|
            old(errs)@.len() <= j < final(errs)@.len() && final(errs)@[j].kind
                is AmbiguousVariant) <==> ambiguous_author(*n),
        (exists|j: int|
            old(errs)@.len() <= j < final(errs)@.len() && final(errs)@[j].kind
                is UnrecognizedVariant) <==> unrecognized_author(*n),
        unrecognized_author(*n) ==> final(errs)@.len() == old(errs)@.len() + 1
            && final(errs)@[old(errs)@.len() as int].kind is UnrecognizedVariant
            && final(errs)@[old(errs)@.len() as int].keys@.map(|i: int, k: String| k@)
                == entry_keys(n.entries()),
        !(*n is Rec) ==> (exists|j: int|
            old(errs)@.len() <= j < final(errs)@.len() && final(errs)@[j].kind is TypeMismatch),
{
    match n {
        Node::Rec(es) => {
            let given = lookup_author_field(es, AuthorField::GivenNames);
            let family = lookup_author_field(es, AuthorField::FamilyNames);
            let name = lookup_author_field(es, AuthorField::Name);
            let person = given.is_some() && family.is_some();
            let entity = name.is_some();
            if person && entity {
                errs.push(
                    finding(
                        ErrorKind::AmbiguousVariant,
                        Severity::Error,
                        "authors".to_owned(),
                        Some(idx),
                        None,
                    ),
                );
                proof {
                    assert(errs@[old(errs)@.len() as int].kind is AmbiguousVariant);
                }
                None
            } else if person {
                let mut ok = true;
                let given_names: Option<String> = match given {
                    Some(Node::Text(s)) => Some(s.clone()),
                    _ => {
                        errs.push(
                            finding(
                                ErrorKind::TypeMismatch,
                                Severity::Error,
                                "authors".to_owned(),
                                Some(idx),
                                Some("given-names".to_owned()),
                            ),
                        );
                        ok = false;
                        None
                    },
                };
                let family_names: Option<String> = match family {
                    Some(Node::Text(s)) => Some(s.clone()),
                    _ => {
                        errs.push(
                            finding(
                                ErrorKind::TypeMismatch,
                                Severity::Error,
                                "authors".to_owned(),
                                Some(idx),
                                Some("family-names".to_owned()),
                            ),
                        );
                        ok = false;
                        None
                    },
                };
                let mut email: Option<String> = None;
                match lookup_author_field(es, AuthorField::Email) {
                    Some(Node::Text(s)) => {
                        email = Some(s.clone());
                    },
                    Some(_) => {
                        errs.push(
                            finding(
                                ErrorKind::TypeMismatch,
                                Severity::Error,
                                "authors".to_owned(),
                                Some(idx),
                                Some("email".to_owned()),
                            ),
                        );
                        ok = false;
                    },
                    None => {},
                }
                let mut orcid: Option<String> = None;
                match lookup_author_field(es, AuthorField::Orcid) {
                    Some(Node::Text(s)) => {
                        orcid = Some(s.clone());
                    },
                    Some(_) => {
                        errs.push(
                            finding(
                                ErrorKind::TypeMismatch,
                                Severity::Error,
                                "authors".to_owned(),
                                Some(idx),
                                Some("orcid".to_owned()),
                            ),
                        );
                        ok = false;
                    },
                    None => {},
                }
                if ok {
                    match (given_names, family_names) {
                        (Some(g), Some(f)) => Some(
                            Author::Person { given_names: g, family_names: f, email, orcid },
                        ),
                        _ => None,
                    }
                } else {
                    None
                }
            } else if entity {
                match name {
                    Some(Node::Text(s)) => Some(Author::Entity { name: s.clone() }),
                    _ => {
                        errs.push(
                            finding(
                                ErrorKind::TypeMismatch,
                                Severity::Error,
                                "authors".to_owned(),
                                Some(idx),
                                Some("name".to_owned()),
                            ),
                        );
                        None
                    },
                }
            } else {
                errs.push(
                    finding_with_keys(
                        ErrorKind::UnrecognizedVariant,
                        Severity::Error,
                        "authors".to_owned(),
                        Some(idx),
                        record_keys(es),
                    ),
                );
                proof {
                    assert(errs@[old(errs)@.len() as int].kind is UnrecognizedVariant);
                }
                None
            }
        },
        _ => {
            errs.push(
                finding(
                    ErrorKind::TypeMismatch,
                    Severity::Error,
                    "authors".to_owned(),
                    Some(idx),
                    None,
                ),
            );
            proof {
                assert(errs@[old(errs)@.len() as int].kind is TypeMismatch);
            }
            None
        },
    }
}

} // verus!
