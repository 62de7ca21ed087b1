//! The required methods of the checkbox group builder.
use vstd::prelude::*;

verus! {

/// `CheckboxesBuilder::action_id`
#[allow(non_camel_case_types)]
#[derive(Debug)]
pub struct action_id;

/// `CheckboxesBuilder::options`
#[allow(non_camel_case_types)]
#[derive(Debug)]
pub struct options;

} // verus!
