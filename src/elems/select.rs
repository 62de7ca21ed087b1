//! Select menus built with typed builders, and what they share.
use vstd::prelude::*;

pub mod method;
pub mod multi;

use crate::compose::validation::{check_plain_text, plain_text_at};
use crate::compose::Text;
use crate::validation::{faults_of, Fault, Field, PathSegment, Violation};

verus! {

/// Violations of a select menu's placeholder: at most 150 characters, and
/// plain text.
pub open spec fn placeholder_at(path: Seq<PathSegment>, placeholder: Text) -> Seq<Fault> {
    plain_text_at(path, Field::Placeholder, placeholder, 150)
}

/// Appends the violations of `placeholder`, a field of the node at `path`.
pub fn placeholder(placeholder: &Text, path: &Vec<PathSegment>, out: &mut Vec<Violation>)
    ensures
        faults_of(final(out)@) == faults_of(old(out)@) + placeholder_at(path@, *placeholder),
{
    check_plain_text(placeholder, 150, path, Field::Placeholder, out);
}

} // verus!
