//! The typed citation model and its mathematical views.

use vstd::prelude::*;

verus! {

/// The kind of work a citation file describes.
#[derive(Clone, Copy, Debug, PartialEq, Eq, Structural)]
pub enum Type {
    Software,
    Dataset,
}

/// A closed set of SPDX license identifiers. A citation may carry several of
/// them; their relationship is always a disjunction (OR), never a conjunction.
#[derive(Clone, Copy, Debug, PartialEq, Eq, Structural)]
pub enum License {
    Mit,
    Apache20,
    Bsd3Clause,
    Gpl20,
    Gpl30,
    Mpl20,
    Isc,
    Unlicense,
}

/// Contact record. The format leaves its field list open; the model keeps the
/// record as a placeholder decoded from a mapping node.
#[derive(Clone, Copy, Debug, PartialEq, Eq, Structural)]
pub struct Contact {}

/// Identifier record, kept as a placeholder decoded from a mapping node.
#[derive(Clone, Copy, Debug, PartialEq, Eq, Structural)]
pub struct Identifier {}

/// Reference record, kept as a placeholder decoded from a mapping node.
#[derive(Clone, Copy, Debug, PartialEq, Eq, Structural)]
pub struct Reference {}

/// An author: either a natural person (given and family names required) or an
/// organisational entity (a single name).
#[derive(Clone, Debug, PartialEq, Eq)]
pub enum Author {
    Person {
        given_names: String,
        family_names: String,
        email: Option<String>,
        orcid: Option<String>,
    },
    Entity {
        name: String,
    },
}

/// Mathematical view of an author: the same shape over character sequences.
#[verifier::ext_equal]
pub enum AuthorView {
    Person {
        given_names: Seq<char>,
        family_names: Seq<char>,
        email: Option<Seq<char>>,
        orcid: Option<Seq<char>>,
    },
    Entity {
        name: Seq<char>,
    },
}

pub open spec fn view_opt_text(o: Option<String>) -> Option<Seq<char>> {
    match o {
        Some(s) => Some(s@),
        None => None,
    }
}

impl View for Author {
    type V = AuthorView;

    open spec fn view(&self) -> AuthorView {
        match self {
            Author::Person { given_names, family_names, email, orcid } => AuthorView::Person {
                given_names: given_names@,
                family_names: family_names@,
                email: view_opt_text(*email),
                orcid: view_opt_text(*orcid),
            },
            Author::Entity { name } => AuthorView::Entity { name: name@ },
        }
    }
}

/// The complete metadata record for one citable work. Constructed only by the
/// decoder, never mutated afterwards.
#[derive(Clone, Debug, PartialEq, Eq)]
pub struct Citation {
    pub abstract_text: Option<String>,
    pub authors: Vec<Author>,
    pub schema_version: String,
    pub commit: Option<String>,
    pub contact: Option<Contact>,
    pub date_released: Option<String>,
    pub doi: Option<String>,
    pub identifiers: Vec<Identifier>,
    pub keywords: Vec<String>,
    pub license: Vec<License>,
    pub license_url: Option<String>,
    pub message: String,
    pub preferred_citation: Option<String>,
    pub references: Vec<Reference>,
    pub repository: Option<String>,
    pub repository_artifact: Option<String>,
    pub repository_code: Option<String>,
    pub title: String,
    pub work_type: Type,
    pub url: Option<String>,
    pub version: Option<String>,
}

/// Mathematical view of a citation: every text as a character sequence, every
/// list as a sequence.
#[verifier::ext_equal]
pub struct CitationView {
    pub abstract_text: Option<Seq<char>>,
    pub authors: Seq<AuthorView>,
    pub schema_version: Seq<char>,
    pub commit: Option<Seq<char>>,
    pub contact: Option<Contact>,
    pub date_released: Option<Seq<char>>,
    pub doi: Option<Seq<char>>,
    pub identifiers: Seq<Identifier>,
    pub keywords: Seq<Seq<char>>,
    pub license: Seq<License>,
    pub license_url: Option<Seq<char>>,
    pub message: Seq<char>,
    pub preferred_citation: Option<Seq<char>>,
    pub references: Seq<Reference>,
    pub repository: Option<Seq<char>>,
    pub repository_artifact: Option<Seq<char>>,
    pub repository_code: Option<Seq<char>>,
    pub title: Seq<char>,
    pub work_type: Type,
    pub url: Option<Seq<char>>,
    pub version: Option<Seq<char>>,
}

impl View for Citation {
    type V = CitationView;

    open spec fn view(&self) -> CitationView {
        CitationView {
            abstract_text: view_opt_text(self.abstract_text),
            authors: self.authors@.map(|i: int, a: Author| a@),
            schema_version: self.schema_version@,
            commit: view_opt_text(self.commit),
            contact: self.contact,
            date_released: view_opt_text(self.date_released),
            doi: view_opt_text(self.doi),
            identifiers: self.identifiers@,
            keywords: self.keywords@.map(|i: int, s: String| s@),
            license: self.license@,
            license_url: view_opt_text(self.license_url),
            message: self.message@,
            preferred_citation: view_opt_text(self.preferred_citation),
            references: self.references@,
            repository: view_opt_text(self.repository),
            repository_artifact: view_opt_text(self.repository_artifact),
            repository_code: view_opt_text(self.repository_code),
            title: self.title@,
            work_type: self.work_type,
            url: view_opt_text(self.url),
            version: view_opt_text(self.version),
        }
    }
}

impl CitationView {
    /// The model invariant: the decoder only ever hands out citations
    /// satisfying it.
    pub open spec fn wf(self) -> bool {
        &&& self.authors.len() > 0
        &&& self.title.len() > 0
        &&& self.schema_version.len() > 0
        &&& match self.date_released {
            Some(d) => crate::dates::date_pattern_ok(d),
            None => true,
        }
    }
}

} // verus!
