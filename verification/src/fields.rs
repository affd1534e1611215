//! The field alias tables and mapping lookups: every accepted spelling of a
//! top-level or author-record key, normalized to one canonical field.

use vstd::prelude::*;
use crate::node::{Entry, Node};
use crate::strutil::str_eq;

verus! {

/// The canonical top-level fields of a citation document.
#[derive(Clone, Copy, Debug, PartialEq, Eq, Structural)]
pub enum FieldId {
    Abstract,
    Authors,
    SchemaVersion,
    Commit,
    Contact,
    DateReleased,
    Doi,
    Identifiers,
    Keywords,
    License,
    LicenseUrl,
    Message,
    PreferredCitation,
    References,
    Repository,
    RepositoryArtifact,
    RepositoryCode,
    Title,
    WorkType,
    Url,
    Version,
}

/// The alias table: which canonical field, if any, a document key spells.
/// Multi-word fields accept both the hyphenated and the underscored form;
/// the table is case-sensitive.
pub open spec fn field_of(k: Seq<char>) -> Option<FieldId> {
    if k == "abstract"@ {
        Some(FieldId::Abstract)
    } else if k == "authors"@ {
        Some(FieldId::Authors)
    } else if k == "cff-version"@ || k == "cff_version"@ {
        Some(FieldId::SchemaVersion)
    } else if k == "commit"@ {
        Some(FieldId::Commit)
    } else if k == "contact"@ {
        Some(FieldId::Contact)
    } else if k == "date-released"@ || k == "date_released"@ {
        Some(FieldId::DateReleased)
    } else if k == "doi"@ {
        Some(FieldId::Doi)
    } else if k == "identifiers"@ {
        Some(FieldId::Identifiers)
    } else if k == "keywords"@ {
        Some(FieldId::Keywords)
    } else if k == "license"@ {
        Some(FieldId::License)
    } else if k == "license-url"@ || k == "license_url"@ {
        Some(FieldId::LicenseUrl)
    } else if k == "message"@ {
        Some(FieldId::Message)
    } else if k == "preferred-citation"@ || k == "preferred_citation"@ {
        Some(FieldId::PreferredCitation)
    } else if k == "references"@ {
        Some(FieldId::References)
    } else if k == "repository"@ {
        Some(FieldId::Repository)
    } else if k == "repository-artifact"@ || k == "repository_artifact"@ {
        Some(FieldId::RepositoryArtifact)
    } else if k == "repository-code"@ || k == "repository_code"@ {
        Some(FieldId::RepositoryCode)
    } else if k == "title"@ {
        Some(FieldId::Title)
    } else if k == "type"@ {
        Some(FieldId::WorkType)
    } else if k == "url"@ {
        Some(FieldId::Url)
    } else if k == "version"@ {
        Some(FieldId::Version)
    } else {
        None
    }
}

/// The canonical name of a field, as reported in findings.
pub open spec fn canon_of(f: FieldId) -> Seq<char> {
    match f {
        FieldId::Abstract => "abstract"@,
        FieldId::Authors => "authors"@,
        FieldId::SchemaVersion => "cff-version"@,
        FieldId::Commit => "commit"@,
        FieldId::Contact => "contact"@,
        FieldId::DateReleased => "date-released"@,
        FieldId::Doi => "doi"@,
        FieldId::Identifiers => "identifiers"@,
        FieldId::Keywords => "keywords"@,
        FieldId::License => "license"@,
        FieldId::LicenseUrl => "license-url"@,
        FieldId::Message => "message"@,
        FieldId::PreferredCitation => "preferred-citation"@,
        FieldId::References => "references"@,
        FieldId::Repository => "repository"@,
        FieldId::RepositoryArtifact => "repository-artifact"@,
        FieldId::RepositoryCode => "repository-code"@,
        FieldId::Title => "title"@,
        FieldId::WorkType => "type"@,
        FieldId::Url => "url"@,
        FieldId::Version => "version"@,
    }
}

/// Resolves one raw key against the alias table.
pub fn resolve_field(key: &str) -> (r: Option<FieldId>)
    ensures
        r == field_of(key@),
{
    if str_eq(key, "abstract") {
        Some(FieldId::Abstract)
    } else if str_eq(key, "authors") {
        Some(FieldId::Authors)
    } else if str_eq(key, "cff-version") || str_eq(key, "cff_version") {
        Some(FieldId::SchemaVersion)
    } else if str_eq(key, "commit") {
        Some(FieldId::Commit)
    } else if str_eq(key, "contact") {
        Some(FieldId::Contact)
    } else if str_eq(key, "date-released") || str_eq(key, "date_released") {
        Some(FieldId::DateReleased)
    } else if str_eq(key, "doi") {
        Some(FieldId::Doi)
    } else if str_eq(key, "identifiers") {
        Some(FieldId::Identifiers)
    } else if str_eq(key, "keywords") {
        Some(FieldId::Keywords)
    } else if str_eq(key, "license") {
        Some(FieldId::License)
    } else if str_eq(key, "license-url") || str_eq(key, "license_url") {
        Some(FieldId::LicenseUrl)
    } else if str_eq(key, "message") {
        Some(FieldId::Message)
    } else if str_eq(key, "preferred-citation") || str_eq(key, "preferred_citation") {
        Some(FieldId::PreferredCitation)
    } else if str_eq(key, "references") {
        Some(FieldId::References)
    } else if str_eq(key, "repository") {
        Some(FieldId::Repository)
    } else if str_eq(key, "repository-artifact") || str_eq(key, "repository_artifact") {
        Some(FieldId::RepositoryArtifact)
    } else if str_eq(key, "repository-code") || str_eq(key, "repository_code") {
        Some(FieldId::RepositoryCode)
    } else if str_eq(key, "title") {
        Some(FieldId::Title)
    } else if str_eq(key, "type") {
        Some(FieldId::WorkType)
    } else if str_eq(key, "url") {
        Some(FieldId::Url)
    } else if str_eq(key, "version") {
        Some(FieldId::Version)
    } else {
        None
    }
}

/// The canonical name of a field, as an owned string.
pub fn canon_name(f: FieldId) -> (s: String)
    ensures
        s@ == canon_of(f),
{
    match f {
        FieldId::Abstract => "abstract".to_owned(),
        FieldId::Authors => "authors".to_owned(),
        FieldId::SchemaVersion => "cff-version".to_owned(),
        FieldId::Commit => "commit".to_owned(),
        FieldId::Contact => "contact".to_owned(),
        FieldId::DateReleased => "date-released".to_owned(),
        FieldId::Doi => "doi".to_owned(),
        FieldId::Identifiers => "identifiers".to_owned(),
        FieldId::Keywords => "keywords".to_owned(),
        FieldId::License => "license".to_owned(),
        FieldId::LicenseUrl => "license-url".to_owned(),
        FieldId::Message => "message".to_owned(),
        FieldId::PreferredCitation => "preferred-citation".to_owned(),
        FieldId::References => "references".to_owned(),
        FieldId::Repository => "repository".to_owned(),
        FieldId::RepositoryArtifact => "repository-artifact".to_owned(),
        FieldId::RepositoryCode => "repository-code".to_owned(),
        FieldId::Title => "title".to_owned(),
        FieldId::WorkType => "type".to_owned(),
        FieldId::Url => "url".to_owned(),
        FieldId::Version => "version".to_owned(),
    }
}

/// The value of the first entry spelling the given field, if any.
pub open spec fn spec_lookup(entries: Seq<Entry>, f: FieldId) -> Option<Node>
    decreases entries.len(),
{
    if entries.len() == 0 {
        None
    } else if field_of(entries[0].key@) == Some(f) {
        Some(entries[0].value)
    } else {
        spec_lookup(entries.drop_first(), f)
    }
}

/// Looks a field up in a mapping's entries, first spelling match wins.
pub fn lookup_field<'a>(entries: &'a Vec<Entry>, f: FieldId) -> (r: Option<&'a Node>)
    ensures
        match r {
            Some(n) => spec_lookup(entries@, f) == Some(*n),
            None => spec_lookup(entries@, f) is None,
        },
{
    proof {
        assert(entries@.skip(0) =~= entries@);
    }
    let mut i: usize = 0;
    while i < entries.len()
        invariant
            i <= entries@.len(),
            spec_lookup(entries@, f) == spec_lookup(entries@.skip(i as int), f),
        decreases entries@.len() - i,
    {
        proof {
            assert(entries@.skip(i as int)[0] == entries@[i as int]);
            assert(entries@.skip(i as int).drop_first() =~= entries@.skip(i as int + 1));
        }
        let matched = match resolve_field(entries[i].key.as_str()) {
            Some(g) => g == f,
            None => false,
        };
        if matched {
            return Some(&entries[i].value);
        }
        i += 1;
    }
    proof {
        assert(entries@.skip(i as int).len() == 0);
    }
    None
}

/// The keys of a record's entries, in order.
pub open spec fn entry_keys(es: Seq<Entry>) -> Seq<Seq<char>> {
    Seq::new(es.len(), |i: int| es[i].key@)
}

/// Whether some entry of the record uses the given key.
pub open spec fn doc_has_key(es: Seq<Entry>, k: Seq<char>) -> bool {
    exists|i: int| 0 <= i < es.len() && es[i].key@ == k
}

/// Collects the keys a record presents, in order.
pub fn record_keys(entries: &Vec<Entry>) -> (v: Vec<String>)
    ensures
        v@.map(|i: int, k: String| k@) == entry_keys(entries@),
{
    let mut v: Vec<String> = Vec::new();
    let mut i: usize = 0;
    while i < entries.len()
        invariant
            i <= entries@.len(),
            v@.len() == i,
            forall|j: int| 0 <= j < i ==> v@[j]@ == entries@[j].key@,
        decreases entries@.len() - i,
    {
        v.push(entries[i].key.clone());
        i += 1;
    }
    proof {
        assert(v@.map(|i: int, k: String| k@) =~= entry_keys(entries@));
    }
    v
}

/// How many top-level keys are unknown to the alias table.
pub open spec fn unknown_count(entries: Seq<Entry>) -> nat
    decreases entries.len(),
{
    if entries.len() == 0 {
        0
    } else {
        (if field_of(entries[0].key@) is None {
            1nat
        } else {
            0nat
        }) + unknown_count(entries.drop_first())
    }
}

/// The canonical author-record fields.
#[derive(Clone, Copy, Debug, PartialEq, Eq, Structural)]
pub enum AuthorField {
    GivenNames,
    FamilyNames,
    Email,
    Orcid,
    Name,
}

/// The alias table for author records.
pub open spec fn author_field_of(k: Seq<char>) -> Option<AuthorField> {
    if k == "given-names"@ || k == "given_names"@ {
        Some(AuthorField::GivenNames)
    } else if k == "family-names"@ || k == "family_names"@ {
        Some(AuthorField::FamilyNames)
    } else if k == "email"@ {
        Some(AuthorField::Email)
    } else if k == "orcid"@ {
        Some(AuthorField::Orcid)
    } else if k == "name"@ {
        Some(AuthorField::Name)
    } else {
        None
    }
}

/// Resolves one author-record key against its alias table.
pub fn resolve_author_field(key: &str) -> (r: Option<AuthorField>)
    ensures
        r == author_field_of(key@),
{
    if str_eq(key, "given-names") || str_eq(key, "given_names") {
        Some(AuthorField::GivenNames)
    } else if str_eq(key, "family-names") || str_eq(key, "family_names") {
        Some(AuthorField::FamilyNames)
    } else if str_eq(key, "email") {
        Some(AuthorField::Email)
    } else if str_eq(key, "orcid") {
        Some(AuthorField::Orcid)
    } else if str_eq(key, "name") {
        Some(AuthorField::Name)
    } else {
        None
    }
}

/// The value of the first entry spelling the given author field, if any.
pub open spec fn spec_author_lookup(entries: Seq<Entry>, f: AuthorField) -> Option<Node>
    decreases entries.len(),
{
    if entries.len() == 0 {
        None
    } else if author_field_of(entries[0].key@) == Some(f) {
        Some(entries[0].value)
    } else {
        spec_author_lookup(entries.drop_first(), f)
    }
}

/// Looks an author field up in an author record's entries.
pub fn lookup_author_field<'a>(entries: &'a Vec<Entry>, f: AuthorField) -> (r: Option<&'a Node>)
    ensures
        match r {
            Some(n) => spec_author_lookup(entries@, f) == Some(*n),
            None => spec_author_lookup(entries@, f) is None,
        },
{
    proof {
        assert(entries@.skip(0) =~= entries@);
    }
    let mut i: usize = 0;
    while i < entries.len()
        invariant
            i <= entries@.len(),
            spec_author_lookup(entries@, f) == spec_author_lookup(entries@.skip(i as int), f),
        decreases entries@.len() - i,
    {
        proof {
            assert(entries@.skip(i as int)[0] == entries@[i as int]);
            assert(entries@.skip(i as int).drop_first() =~= entries@.skip(i as int + 1));
        }
        let matched = match resolve_author_field(entries[i].key.as_str()) {
            Some(g) => g == f,
            None => false,
        };
        if matched {
            return Some(&entries[i].value);
        }
        i += 1;
    }
    proof {
        assert(entries@.skip(i as int).len() == 0);
    }
    None
}

} // verus!
