//! Format laws stated and proved once over the decoder's specification, so
//! that they hold of every document, not only of tested ones.

use vstd::prelude::*;
use crate::author::{author_ok, entity_selected, person_selected, spec_author};
use crate::decode::{doc_decodes, message_ok, spec_citation, spec_type, type_token_bad};
use crate::enum_match::type_of_token;
use crate::fields::{spec_lookup, FieldId};
use crate::model::{CitationView, Type};
use crate::node::{Entry, Node};
use crate::strutil::lower;

verus! {

/// A document missing `title`, `cff-version` or `authors` never decodes,
/// while a missing `message` alone never blocks decoding: the field defaults.
pub proof fn lemma_missing_required(es: Seq<Entry>, strict: bool)
    ensures
        spec_lookup(es, FieldId::Title) is None ==> !doc_decodes(es, strict),
        spec_lookup(es, FieldId::SchemaVersion) is None ==> !doc_decodes(es, strict),
        spec_lookup(es, FieldId::Authors) is None ==> !doc_decodes(es, strict),
        spec_lookup(es, FieldId::Message) is None ==> message_ok(es),
{
}

/// Variant selection for author records is structural and exclusive: both
/// required-key sets present is never accepted (ambiguous), neither is never
/// accepted (unrecognized), and the accepted variant follows the keys.
pub proof fn lemma_author_variant_selection(n: Node)
    requires
        n is Rec,
    ensures
        person_selected(n.entries()) && entity_selected(n.entries()) ==> !author_ok(n),
        !person_selected(n.entries()) && !entity_selected(n.entries()) ==> !author_ok(n),
        author_ok(n) && person_selected(n.entries()) ==> spec_author(n) is Person,
        author_ok(n) && entity_selected(n.entries()) ==> spec_author(n) is Entity,
{
}

/// The work type defaults to `Software` when absent; any token whose ASCII
/// lowercase form is `dataset` decodes to `Dataset`, `software` to `Software`,
/// and a token matching neither blocks decoding.
pub proof fn lemma_type_rules(es: Seq<Entry>, strict: bool)
    ensures
        spec_lookup(es, FieldId::WorkType) is None ==> spec_type(es) == Type::Software,
        forall|t: Seq<char>|
            lower(t) == "software"@ ==> #[trigger] type_of_token(t) == Some(Type::Software),
        forall|t: Seq<char>|
            lower(t) == "dataset"@ ==> #[trigger] type_of_token(t) == Some(Type::Dataset),
        type_token_bad(es) ==> !doc_decodes(es, strict),
{
    assert forall|t: Seq<char>|
        lower(t) == "software"@ implies #[trigger] type_of_token(t) == Some(Type::Software) by {
        reveal_strlit("software");
        reveal_strlit("dataset");
    }
    assert forall|t: Seq<char>|
        lower(t) == "dataset"@ implies #[trigger] type_of_token(t) == Some(Type::Dataset) by {
        reveal_strlit("software");
        reveal_strlit("dataset");
        assert(lower(t) != "software"@) by {
            assert("software"@.len() != "dataset"@.len());
        }
    }
}

/// Decoding is a pure function of the document: feeding the same document
/// twice yields the same citation, so re-decoding a decoded document's source
/// reproduces it exactly.
pub proof fn lemma_decode_idempotent(es: Seq<Entry>, strict: bool, c1: CitationView, c2: CitationView)
    requires
        doc_decodes(es, strict),
        c1 == spec_citation(es),
        c2 == spec_citation(es),
    ensures
        c1 == c2,
{
}

} // verus!
