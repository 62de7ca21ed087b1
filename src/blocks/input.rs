//! Input block: collects information from users through one element.
use vstd::prelude::*;

use crate::block_elements::select;
use crate::compose::validation::{spec_text_is_plain, spec_text_max_len, text_is_plain, text_max_len};
use crate::compose::Text;
use crate::validation::{
    conclude, fault_at, faults_of, max_length, outcome, record, spec_max_length, ConstraintKind,
    ConstraintResult, Fault, Field, PathSegment, Report, Violation,
};

verus! {

/// The block elements that an input block accepts.
#[derive(Clone, Debug, PartialEq, Eq, Hash)]
pub enum InputElement {
    Checkboxes,
    DatePicker,
    MultiSelect,
    Select(select::Contents),
    PlainInput,
    RadioButtons,
}

impl InputElement {
    /// The input element for a select menu of kind `contents`.
    pub fn from_select(contents: select::Contents) -> (r: InputElement)
        ensures
            r == InputElement::Select(contents),
    {
        InputElement::Select(contents)
    }
}

/// A text object of an input block holds at most 2000 characters.
pub fn text_max_len_2k(text: &Text) -> (r: ConstraintResult)
    ensures
        r == spec_text_max_len(*text, 2000),
{
    text_max_len(text, 2000)
}

/// An input block.
#[derive(Clone, Debug, PartialEq, Eq, Hash)]
pub struct Contents {
    label: Text,
    element: InputElement,
    block_id: Option<String>,
    hint: Option<Text>,
    optional: Option<bool>,
}

impl Contents {
    pub closed spec fn spec_label(&self) -> Text {
        self.label
    }

    pub closed spec fn spec_element(&self) -> InputElement {
        self.element
    }

    pub closed spec fn spec_block_id(&self) -> Option<Seq<char>> {
        match self.block_id {
            Some(s) => Some(s@),
            None => None,
        }
    }

    pub closed spec fn spec_hint(&self) -> Option<Text> {
        self.hint
    }

    pub closed spec fn spec_optional(&self) -> Option<bool> {
        self.optional
    }

    /// The label shown above the element.
    pub fn label(&self) -> (r: &Text)
        ensures
            *r == self.spec_label(),
    {
        &self.label
    }

    /// The element that collects the input.
    pub fn element(&self) -> (r: &InputElement)
        ensures
            *r == self.spec_element(),
    {
        &self.element
    }

    /// The identifier of the block.
    pub fn block_id(&self) -> (r: Option<&str>)
        ensures
            match r {
                Some(s) => self.spec_block_id() == Some(s@),
                None => self.spec_block_id() is None,
            },
    {
        match &self.block_id {
            Some(s) => Some(s.as_str()),
            None => None,
        }
    }

    /// The hint shown below the element.
    pub fn hint(&self) -> (r: Option<&Text>)
        ensures
            match r {
                Some(t) => self.spec_hint() == Some(*t),
                None => self.spec_hint() is None,
            },
    {
        self.hint.as_ref()
    }

    /// Whether the element may be left empty.
    pub fn optional(&self) -> (r: Option<bool>)
        ensures
            r == self.spec_optional(),
    {
        self.optional
    }

    /// An input block with a `label` shown above `element` (the label holds
    /// at most 2000 characters).
    pub fn from_label_and_element(label: Text, element: InputElement) -> (r: Contents)
        ensures
            r.spec_label() == label,
            r.spec_element() == element,
            r.spec_block_id() is None,
            r.spec_hint() is None,
            r.spec_optional() is None,
    {
        Contents { label, element, block_id: None, hint: None, optional: None }
    }

    /// Sets `block_id`, which identifies the block in interaction payloads
    /// (at most 255 characters).
    pub fn with_block_id(self, block_id: &str) -> (r: Contents)
        ensures
            r.spec_label() == self.spec_label(),
            r.spec_element() == self.spec_element(),
            r.spec_block_id() == Some(block_id@),
            r.spec_hint() == self.spec_hint(),
            r.spec_optional() == self.spec_optional(),
    {
        Contents { block_id: Some(String::from_str(block_id)), ..self }
    }

    /// Sets the hint shown below the element (at most 2000 characters).
    pub fn with_hint(self, hint: Text) -> (r: Contents)
        ensures
            r.spec_label() == self.spec_label(),
            r.spec_element() == self.spec_element(),
            r.spec_block_id() == self.spec_block_id(),
            r.spec_hint() == Some(hint),
            r.spec_optional() == self.spec_optional(),
    {
        Contents { hint: Some(hint), ..self }
    }

    /// Sets whether the element may be left empty when the form is sent.
    pub fn with_optional(self, optionality: bool) -> (r: Contents)
        ensures
            r.spec_label() == self.spec_label(),
            r.spec_element() == self.spec_element(),
            r.spec_block_id() == self.spec_block_id(),
            r.spec_hint() == self.spec_hint(),
            r.spec_optional() == Some(optionality),
    {
        Contents { optional: Some(optionality), ..self }
    }

    /// Violations of the block at `path`: a plain-text label of at most 2000
    /// characters, `block_id` at most 255, a plain-text hint of at most 2000.
    pub open spec fn violations_at(&self, path: Seq<PathSegment>) -> Seq<Fault> {
        fault_at(path, Field::Label, spec_text_max_len(self.spec_label(), 2000))
            + fault_at(path, Field::Label, spec_text_is_plain(self.spec_label()))
            + match self.spec_block_id() {
                Some(id) => fault_at(path, Field::BlockId, spec_max_length(id, 255)),
                None => Seq::empty(),
            }
            + match self.spec_hint() {
                Some(h) => fault_at(path, Field::Hint, spec_text_max_len(h, 2000))
                    + fault_at(path, Field::Hint, spec_text_is_plain(h)),
                None => Seq::empty(),
            }
    }

    pub open spec fn violations(&self) -> Seq<Fault> {
        self.violations_at(Seq::empty())
    }

    /// Appends the violations of this block, at `path`, to `out`.
    pub fn check(&self, path: &Vec<PathSegment>, out: &mut Vec<Violation>)
        ensures
            faults_of(final(out)@) == faults_of(old(out)@) + self.violations_at(path@),
    {
        let ghost start = faults_of(out@);
        record(out, path, Field::Label, text_max_len_2k(&self.label));
        record(out, path, Field::Label, text_is_plain(&self.label));
        match &self.block_id {
            Some(id) => record(out, path, Field::BlockId, max_length(id.as_str(), 255)),
            None => {},
        }
        match &self.hint {
            Some(h) => {
                record(out, path, Field::Hint, text_max_len_2k(h));
                record(out, path, Field::Hint, text_is_plain(h));
            },
            None => {},
        }
        assert(faults_of(out@) =~= start + self.violations_at(path@));
    }

    /// Validates this block, reporting every violation.
    pub fn validate(&self) -> (r: Result<(), Report>)
        ensures
            outcome(self.violations(), r),
    {
        let mut out: Vec<Violation> = Vec::new();
        self.check(&Vec::new(), &mut out);
        assert(faults_of(Seq::<Violation>::empty()) =~= Seq::<Fault>::empty());
        assert(self.violations() =~= Seq::<Fault>::empty() + self.violations());
        conclude(out)
    }
}

/// Validation does not stop at the first failure: an input block with a
/// plain-text label and hint whose label, `block_id` and hint are all too
/// long is reported with exactly three violations, one at each of those
/// fields, in field order, each with the length found.
pub proof fn every_failing_field_is_reported(c: Contents, r: Result<(), Report>)
    requires
        outcome(c.violations(), r),
        c.spec_label().is_plain(),
        c.spec_label().spec_text().len() > 2000,
        c.spec_block_id() matches Some(id) && id.len() > 255,
        c.spec_hint() matches Some(h) && h.is_plain() && h.spec_text().len() > 2000,
    ensures
        r is Err,
        r->Err_0@ == seq![
            (
                seq![PathSegment::Field(Field::Label)],
                ConstraintKind::MaxLength { max: 2000, len: c.spec_label().spec_text().len() as u64 },
            ),
            (
                seq![PathSegment::Field(Field::BlockId)],
                ConstraintKind::MaxLength { max: 255, len: c.spec_block_id()->Some_0.len() as u64 },
            ),
            (
                seq![PathSegment::Field(Field::Hint)],
                ConstraintKind::MaxLength { max: 2000, len: c.spec_hint()->Some_0.spec_text().len() as u64 },
            ),
        ],
{
    let e = Seq::<PathSegment>::empty();
    assert(e.push(PathSegment::Field(Field::Label)) =~= seq![PathSegment::Field(Field::Label)]);
    assert(e.push(PathSegment::Field(Field::BlockId)) =~= seq![PathSegment::Field(Field::BlockId)]);
    assert(e.push(PathSegment::Field(Field::Hint)) =~= seq![PathSegment::Field(Field::Hint)]);
    assert(c.violations() =~= r->Err_0@);
}

} // verus!
