//! The error and finding taxonomy shared by the decoder and the validator.

use vstd::prelude::*;

verus! {

/// What went wrong (or is worth noting) about one field of the document.
#[derive(Clone, Copy, Debug, PartialEq, Eq, Structural)]
pub enum ErrorKind {
    MissingRequiredField,
    TypeMismatch,
    InvalidEnumValue,
    AmbiguousVariant,
    UnrecognizedVariant,
    FormatViolation,
    UnknownField,
    StructuralFailure,
    Advisory,
    Unlicensed,
}

/// How severe a finding is: only `Error` findings fail a document.
#[derive(Clone, Copy, Debug, PartialEq, Eq, Structural)]
pub enum Severity {
    Error,
    Warning,
    Info,
}

/// One field-scoped finding: the kind, its severity, the canonical field it
/// concerns (or the raw key, for unknown fields), the element index within a
/// sequence field, an offending token or sub-field name, and — for an
/// unrecognized record variant — the keys the record presented.
#[derive(Clone, Debug, PartialEq, Eq)]
pub struct Finding {
    pub kind: ErrorKind,
    pub severity: Severity,
    pub field: String,
    pub index: Option<usize>,
    pub token: Option<String>,
    pub keys: Vec<String>,
}

/// Mathematical view of a finding.
#[verifier::ext_equal]
pub struct FindingView {
    pub kind: ErrorKind,
    pub severity: Severity,
    pub field: Seq<char>,
    pub index: Option<usize>,
    pub token: Option<Seq<char>>,
    pub keys: Seq<Seq<char>>,
}

impl View for Finding {
    type V = FindingView;

    open spec fn view(&self) -> FindingView {
        FindingView {
            kind: self.kind,
            severity: self.severity,
            field: self.field@,
            index: self.index,
            token: match self.token {
                Some(t) => Some(t@),
                None => None,
            },
            keys: self.keys@.map(|i: int, k: String| k@),
        }
    }
}

/// Whether the findings contain a field-level (not element-scoped) finding of
/// the given kind for the given canonical field.
pub open spec fn has_top(fs: Seq<Finding>, kind: ErrorKind, field: Seq<char>) -> bool {
    exists|i: int|
        0 <= i < fs.len() && fs[i].kind == kind && fs[i].field@ == field && fs[i].index is None
}

/// Whether the findings contain an element-scoped finding of the given kind
/// for the given canonical field and element index.
pub open spec fn has_at(fs: Seq<Finding>, kind: ErrorKind, field: Seq<char>, i: int) -> bool {
    exists|k: int|
        0 <= k < fs.len() && fs[k].kind == kind && fs[k].field@ == field && fs[k].index is Some
            && fs[k].index->0 as int == i
}

/// How many findings of the given kind a list contains.
pub open spec fn count_kind(fs: Seq<Finding>, kind: ErrorKind) -> nat
    decreases fs.len(),
{
    if fs.len() == 0 {
        0
    } else {
        (if fs[0].kind == kind {
            1nat
        } else {
            0nat
        }) + count_kind(fs.drop_first(), kind)
    }
}

/// In a list whose first `m` findings are not of the given kind and whose
/// remaining findings all are, the count of that kind is exactly the length
/// of the remainder.
pub proof fn lemma_count_kind_split(fs: Seq<Finding>, m: int, kind: ErrorKind)
    requires
        0 <= m <= fs.len(),
        forall|j: int| 0 <= j < m ==> fs[j].kind != kind,
        forall|j: int| m <= j < fs.len() ==> fs[j].kind == kind,
    ensures
        count_kind(fs, kind) == fs.len() - m,
    decreases fs.len(),
{
    if fs.len() > 0 {
        if m > 0 {
            lemma_count_kind_split(fs.drop_first(), m - 1, kind);
        } else {
            lemma_count_kind_split(fs.drop_first(), 0, kind);
        }
    }
}

/// Builds a finding value with no record keys attached.
pub fn finding(
    kind: ErrorKind,
    severity: Severity,
    field: String,
    index: Option<usize>,
    token: Option<String>,
) -> (r: Finding)
    ensures
        r.kind == kind,
        r.severity == severity,
        r.field == field,
        r.index == index,
        r.token == token,
        r.keys@ == Seq::<String>::empty(),
{
    Finding { kind, severity, field, index, token, keys: Vec::new() }
}

/// Builds a finding value carrying the keys a record presented.
pub fn finding_with_keys(
    kind: ErrorKind,
    severity: Severity,
    field: String,
    index: Option<usize>,
    keys: Vec<String>,
) -> (r: Finding)
    ensures
        r.kind == kind,
        r.severity == severity,
        r.field == field,
        r.index == index,
        r.token is None,
        r.keys == keys,
{
    Finding { kind, severity, field, index, token: None, keys }
}

} // verus!
