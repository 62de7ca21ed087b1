//! The required methods of the select menu builders.
use vstd::prelude::*;

verus! {

/// The `placeholder` method of a select menu builder.
#[allow(non_camel_case_types)]
#[derive(Debug)]
pub struct placeholder;

/// The `action_id` method of a select menu builder.
#[allow(non_camel_case_types)]
#[derive(Debug)]
pub struct action_id;

} // verus!
