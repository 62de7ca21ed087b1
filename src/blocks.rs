//! Blocks: the top-level nodes of a message.
use vstd::prelude::*;

pub mod actions;
pub mod context;
pub mod input;

use crate::compose::validation::{spec_text_max_len, text_max_len};
use crate::compose::Text;
use crate::validation::{
    conclude, fault_at, faults_of, outcome, record, validation_is_deterministic, Fault, Field,
    Report, Violation,
};

verus! {

/// A block of a message.
#[derive(Clone, Debug, PartialEq, Eq, Hash)]
pub enum Block {
    /// A block of text.
    Section { text: Text },
    /// A content divider, like an `<hr>`; it has no fields.
    Divider,
    /// An image.
    Image,
    /// Interactive elements.
    Actions(actions::Contents),
    /// Message context, as text and images.
    Context(context::Contents),
    /// A form input.
    Input(input::Contents),
    /// A remote file.
    File,
}

impl Block {
    /// The name of the kind of block.
    pub open spec fn spec_name(&self) -> Seq<char> {
        match self {
            Block::Section { .. } => "Section"@,
            Block::Divider => "Divider"@,
            Block::Image => "Image"@,
            Block::Actions(_) => "Actions"@,
            Block::Context(_) => "Context"@,
            Block::Input(_) => "Input"@,
            Block::File => "File"@,
        }
    }

    /// The name of the kind of block.
    pub fn name(&self) -> (r: &'static str)
        ensures
            r@ == self.spec_name(),
    {
        match self {
            Block::Section { .. } => "Section",
            Block::Divider => "Divider",
            Block::Image => "Image",
            Block::Actions(_) => "Actions",
            Block::Context(_) => "Context",
            Block::Input(_) => "Input",
            Block::File => "File",
        }
    }

    /// Violations of the block: a section's text holds at most 3000
    /// characters; actions, context and input blocks have their own.
    pub open spec fn violations(&self) -> Seq<Fault> {
        match self {
            Block::Section { text } => fault_at(Seq::empty(), Field::Text, spec_text_max_len(*text, 3000)),
            Block::Actions(c) => c.violations(),
            Block::Context(c) => c.violations(),
            Block::Input(c) => c.violations(),
            _ => Seq::empty(),
        }
    }

    /// Validates this block and everything nested in it, reporting every
    /// violation.
    pub fn validate(&self) -> (r: Result<(), Report>)
        ensures
            outcome(self.violations(), r),
    {
        let mut out: Vec<Violation> = Vec::new();
        let root: Vec<crate::validation::PathSegment> = Vec::new();
        match self {
            Block::Section { text } => record(&mut out, &root, Field::Text, text_max_len(text, 3000)),
            Block::Actions(c) => c.check(&root, &mut out),
            Block::Context(c) => c.check(&root, &mut out),
            Block::Input(c) => c.check(&root, &mut out),
            _ => {},
        }
        assert(faults_of(Seq::<Violation>::empty()) =~= Seq::<Fault>::empty());
        assert(self.violations() =~= Seq::<Fault>::empty() + self.violations());
        conclude(out)
    }
}

impl From<actions::Contents> for Block {
    fn from(contents: actions::Contents) -> Block {
        Block::Actions(contents)
    }
}

impl vstd::std_specs::convert::FromSpecImpl<actions::Contents> for Block {
    open spec fn obeys_from_spec() -> bool {
        true
    }

    open spec fn from_spec(contents: actions::Contents) -> Block {
        Block::Actions(contents)
    }
}

impl From<context::Contents> for Block {
    fn from(contents: context::Contents) -> Block {
        Block::Context(contents)
    }
}

impl vstd::std_specs::convert::FromSpecImpl<context::Contents> for Block {
    open spec fn obeys_from_spec() -> bool {
        true
    }

    open spec fn from_spec(contents: context::Contents) -> Block {
        Block::Context(contents)
    }
}

impl From<input::Contents> for Block {
    fn from(contents: input::Contents) -> Block {
        Block::Input(contents)
    }
}

impl vstd::std_specs::convert::FromSpecImpl<input::Contents> for Block {
    open spec fn obeys_from_spec() -> bool {
        true
    }

    open spec fn from_spec(contents: input::Contents) -> Block {
        Block::Input(contents)
    }
}

/// Validating the same block twice gives the same result: equal reports, or
/// success both times.
pub proof fn validate_is_idempotent(b: Block, r1: Result<(), Report>, r2: Result<(), Report>)
    requires
        outcome(b.violations(), r1),
        outcome(b.violations(), r2),
    ensures
        r1 is Ok <==> r2 is Ok,
        r1 is Err ==> r1->Err_0@ == r2->Err_0@,
{
    validation_is_deterministic(b.violations(), r1, r2);
}

} // verus!
