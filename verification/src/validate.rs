//! The validator: format-level rules over an already-decoded citation,
//! evaluated independently and all at once, never mutating the model.

use vstd::prelude::*;
use crate::dates::{check_date_valid, date_valid};
use crate::errors::{finding, ErrorKind, Finding, FindingView, Severity};
use crate::model::{Citation, CitationView};
use crate::strutil::is_alpha;

verus! {

/// A syntactically well-formed URL: a non-empty alphabetic scheme, the
/// separator `://`, and a non-empty remainder.
pub open spec fn url_ok(s: Seq<char>) -> bool {
    exists|i: int|
        0 < i && i + 3 < s.len() && (forall|j: int| 0 <= j < i ==> is_alpha(s[j])) && (#[trigger] s[i])
            == ':' && s[i + 1] == '/' && s[i + 2] == '/'
}

/// Run-time alphabetic test, matching `is_alpha`.
pub fn is_alpha_exec(c: char) -> (r: bool)
    ensures
        r == is_alpha(c),
{
    ('a' <= c && c <= 'z') || ('A' <= c && c <= 'Z')
}

/// Checks URL syntax.
pub fn check_url(s: &str) -> (r: bool)
    ensures
        r == url_ok(s@),
{
    let n = s.unicode_len();
    let mut j: usize = 0;
    let mut stopped = false;
    while !stopped && j < n
        invariant
            n == s@.len(),
            j <= n,
            forall|k: int| 0 <= k < j ==> is_alpha(s@[k]),
            stopped ==> j < n && !is_alpha(s@[j as int]),
        decreases n - j, (if stopped { 0int } else { 1int }),
    {
        if is_alpha_exec(s.get_char(j)) {
            j += 1;
        } else {
            stopped = true;
        }
    }
    if !stopped {
        // every character is alphabetic: no separator exists
        proof {
            if url_ok(s@) {
                let i = choose|i: int|
                    0 < i && i + 3 < s@.len() && (forall|j: int| 0 <= j < i ==> is_alpha(s@[j]))
                        && (#[trigger] s@[i]) == ':' && s@[i + 1] == '/' && s@[i + 2] == '/';
                assert(is_alpha(s@[i]));
                assert(false);
            }
        }
        return false;
    }
    // s@[j] is the first non-alphabetic character
    if j == 0 {
        proof {
            if url_ok(s@) {
                let i = choose|i: int|
                    0 < i && i + 3 < s@.len() && (forall|j: int| 0 <= j < i ==> is_alpha(s@[j]))
                        && (#[trigger] s@[i]) == ':' && s@[i + 1] == '/' && s@[i + 2] == '/';
                assert(is_alpha(s@[0]));
                assert(false);
            }
        }
        return false;
    }
    let sep_ok = n - j > 3 && s.get_char(j) == ':' && s.get_char(j + 1) == '/' && s.get_char(j + 2)
        == '/';
    proof {
        if sep_ok {
            assert(0 < j && j as int + 3 < s@.len() && (forall|k: int|
                0 <= k < j ==> is_alpha(s@[k])) && (#[trigger] s@[j as int]) == ':' && s@[j as int
                + 1] == '/' && s@[j as int + 2] == '/');
            assert(url_ok(s@));
        } else {
            if url_ok(s@) {
                let i = choose|i: int|
                    0 < i && i + 3 < s@.len() && (forall|j: int| 0 <= j < i ==> is_alpha(s@[j]))
                        && (#[trigger] s@[i]) == ':' && s@[i + 1] == '/' && s@[i + 2] == '/';
                if i < j {
                    assert(is_alpha(s@[i]));
                } else if i > j {
                    assert(is_alpha(s@[j as int]));
                }
                assert(i == j);
                assert(false);
            }
        }
    }
    sep_ok
}

/// One optional finding: the finding when its condition holds, else nothing.
pub open spec fn check1(cond: bool, f: FindingView) -> Seq<FindingView> {
    if cond {
        seq![f]
    } else {
        Seq::<FindingView>::empty()
    }
}

/// A field-level finding view with no index, token or record keys.
pub open spec fn fv(kind: ErrorKind, severity: Severity, field: Seq<char>) -> FindingView {
    FindingView {
        kind,
        severity,
        field,
        index: None,
        token: None,
        keys: Seq::<Seq<char>>::empty(),
    }
}

/// Whether an optional URL field is present with bad syntax.
pub open spec fn bad_url(o: Option<Seq<char>>) -> bool {
    match o {
        Some(s) => !url_ok(s),
        None => false,
    }
}

/// Whether the release date is present but no real calendar date.
pub open spec fn bad_date(o: Option<Seq<char>>) -> bool {
    match o {
        Some(d) => !date_valid(d),
        None => false,
    }
}

/// Everything the validator reports about a citation, in order: an empty
/// author list (hard violation), a release date that is no real calendar day,
/// a preferred-citation advisory, an unspecified-licensing note, and one
/// syntax violation for each malformed URL field.
pub open spec fn spec_validate(c: CitationView) -> Seq<FindingView> {
    check1(c.authors.len() == 0, fv(ErrorKind::FormatViolation, Severity::Error, "authors"@))
        + check1(
        bad_date(c.date_released),
        fv(ErrorKind::FormatViolation, Severity::Error, "date-released"@),
    ) + check1(
        c.preferred_citation is Some,
        fv(ErrorKind::Advisory, Severity::Warning, "preferred-citation"@),
    ) + check1(
        c.license.len() == 0 && c.license_url is None,
        fv(ErrorKind::Unlicensed, Severity::Info, "license"@),
    ) + check1(bad_url(c.url), fv(ErrorKind::FormatViolation, Severity::Error, "url"@)) + check1(
        bad_url(c.repository),
        fv(ErrorKind::FormatViolation, Severity::Error, "repository"@),
    ) + check1(
        bad_url(c.repository_artifact),
        fv(ErrorKind::FormatViolation, Severity::Error, "repository-artifact"@),
    ) + check1(
        bad_url(c.repository_code),
        fv(ErrorKind::FormatViolation, Severity::Error, "repository-code"@),
    ) + check1(
        bad_url(c.license_url),
        fv(ErrorKind::FormatViolation, Severity::Error, "license-url"@),
    )
}

/// Whether a sequence of findings contains a hard violation.
pub open spec fn any_error(fs: Seq<FindingView>) -> bool {
    exists|i: int| 0 <= i < fs.len() && fs[i].severity is Error
}

fn push_if(fs: &mut Vec<Finding>, cond: bool, kind: ErrorKind, severity: Severity, field: &str)
    ensures
        final(fs)@.map(|i: int, f: Finding| f@) == old(fs)@.map(|i: int, f: Finding| f@) + check1(
            cond,
            fv(kind, severity, field@),
        ),
{
    if cond {
        fs.push(finding(kind, severity, field.to_owned(), None, None));
        proof {
            assert(fs@.map(|i: int, f: Finding| f@) =~~= old(fs)@.map(|i: int, f: Finding| f@)
                + check1(cond, fv(kind, severity, field@)));
        }
    } else {
        proof {
            assert(fs@.map(|i: int, f: Finding| f@) =~~= old(fs)@.map(|i: int, f: Finding| f@)
                + check1(cond, fv(kind, severity, field@)));
        }
    }
}

/// Checks an optional URL field.
fn url_field_ok(o: &Option<String>) -> (r: bool)
    ensures
        r == !bad_url(crate::model::view_opt_text(*o)),
{
    match o {
        Some(s) => check_url(s.as_str()),
        None => true,
    }
}

/// Runs every format-level rule over a decoded citation and returns the
/// complete ordered list of findings; an empty list means a valid citation.
/// The citation itself is never changed.
pub fn validate(c: &Citation) -> (fs: Vec<Finding>)
    ensures
        fs@.map(|i: int, f: Finding| f@) == spec_validate(c@),
{
    let mut fs: Vec<Finding> = Vec::new();
    proof {
        assert(fs@.map(|i: int, f: Finding| f@) =~~= Seq::<FindingView>::empty());
    }
    push_if(
        &mut fs,
        c.authors.len() == 0,
        ErrorKind::FormatViolation,
        Severity::Error,
        "authors",
    );
    let date_bad = match &c.date_released {
        Some(d) => !check_date_valid(d.as_str()),
        None => false,
    };
    push_if(&mut fs, date_bad, ErrorKind::FormatViolation, Severity::Error, "date-released");
    push_if(
        &mut fs,
        c.preferred_citation.is_some(),
        ErrorKind::Advisory,
        Severity::Warning,
        "preferred-citation",
    );
    push_if(
        &mut fs,
        c.license.len() == 0 && c.license_url.is_none(),
        ErrorKind::Unlicensed,
        Severity::Info,
        "license",
    );
    push_if(&mut fs, !url_field_ok(&c.url), ErrorKind::FormatViolation, Severity::Error, "url");
    push_if(
        &mut fs,
        !url_field_ok(&c.repository),
        ErrorKind::FormatViolation,
        Severity::Error,
        "repository",
    );
    push_if(
        &mut fs,
        !url_field_ok(&c.repository_artifact),
        ErrorKind::FormatViolation,
        Severity::Error,
        "repository-artifact",
    );
    push_if(
        &mut fs,
        !url_field_ok(&c.repository_code),
        ErrorKind::FormatViolation,
        Severity::Error,
        "repository-code",
    );
    push_if(
        &mut fs,
        !url_field_ok(&c.license_url),
        ErrorKind::FormatViolation,
        Severity::Error,
        "license-url",
    );
    proof {
        assert(fs@.map(|i: int, f: Finding| f@) =~~= spec_validate(c@));
    }
    fs
}

} // verus!
