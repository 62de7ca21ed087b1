//! Constraints on text objects.
use vstd::prelude::*;

use super::Text;
use crate::validation::{
    fault_at, faults_of, max_length, record, spec_max_length, ConstraintKind, ConstraintResult,
    Fault, Field, PathSegment, Violation,
};

verus! {

pub open spec fn spec_text_is_plain(text: Text) -> ConstraintResult {
    if text.is_plain() {
        Ok(())
    } else {
        Err(ConstraintKind::TextIsPlain)
    }
}

pub open spec fn spec_text_max_len(text: Text, max_len: u64) -> ConstraintResult {
    spec_max_length(text.spec_text(), max_len)
}

/// Checks that a text object is plain text, not markdown.
pub fn text_is_plain(text: &Text) -> (r: ConstraintResult)
    ensures
        r == spec_text_is_plain(*text),
{
    match text {
        Text::Markdown { .. } => Err(ConstraintKind::TextIsPlain),
        Text::Plain { .. } => Ok(()),
    }
}

/// Checks that a text object holds at most `max_len` characters.
pub fn text_max_len(text: &Text, max_len: u64) -> (r: ConstraintResult)
    ensures
        r == spec_text_max_len(*text, max_len),
        r is Ok <==> text.spec_text().len() <= max_len,
        r matches Err(k) ==> k == (ConstraintKind::MaxLength { max: max_len, len: text.spec_text().len() as u64 }),
        r matches Err(ConstraintKind::MaxLength { len, .. }) ==> len == text.spec_text().len(),
{
    max_length(text.text(), max_len)
}

/// Violations of a text field `f` of the node at `path` that must be plain
/// text of at most `max_len` characters: the length first, then the format.
pub open spec fn plain_text_at(path: Seq<PathSegment>, f: Field, text: Text, max_len: u64) -> Seq<Fault> {
    fault_at(path, f, spec_text_max_len(text, max_len)) + fault_at(path, f, spec_text_is_plain(text))
}

/// Appends the violations of `text`, the field `f` of the node at `path`,
/// which must be plain text of at most `max_len` characters.
pub fn check_plain_text(text: &Text, max_len: u64, path: &Vec<PathSegment>, f: Field, out: &mut Vec<Violation>)
    ensures
        faults_of(final(out)@) == faults_of(old(out)@) + plain_text_at(path@, f, *text, max_len),
{
    let ghost start = faults_of(out@);
    record(out, path, f, text_max_len(text, max_len));
    record(out, path, f, text_is_plain(text));
    assert(faults_of(out@) =~= start + plain_text_at(path@, f, *text, max_len));
}

} // verus!
