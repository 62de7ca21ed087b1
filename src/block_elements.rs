//! Block elements: the interactive parts of blocks, and their general family.
use vstd::prelude::*;

pub mod select;

use crate::compose::validation::{check_plain_text, plain_text_at};
use crate::compose::Text;
use crate::elems::select::multi;
use crate::elems::Checkboxes;
use crate::validation::{
    conclude, fault_at, faults_of, max_length, outcome, record, spec_max_length, Fault, Field,
    PathSegment, Report, Violation,
};

verus! {

/// A button that sends an interaction payload when clicked.
#[derive(Clone, Debug, PartialEq, Eq, Hash)]
pub struct Button {
    text: Text,
    action_id: String,
}

impl Button {
    pub closed spec fn spec_text(&self) -> Text {
        self.text
    }

    pub closed spec fn spec_action_id(&self) -> Seq<char> {
        self.action_id@
    }

    /// The label of the button.
    pub fn text(&self) -> (r: &Text)
        ensures
            *r == self.spec_text(),
    {
        &self.text
    }

    /// The identifier of the action.
    pub fn action_id(&self) -> (r: &str)
        ensures
            r@ == self.spec_action_id(),
    {
        self.action_id.as_str()
    }

    /// A button labelled with plain `text`.
    pub fn from_text_and_action_id(text: &str, action_id: &str) -> (r: Button)
        ensures
            r.spec_text().is_plain() && r.spec_text().spec_text() == text@,
            r.spec_action_id() == action_id@,
    {
        Button { text: Text::plain(text), action_id: String::from_str(action_id) }
    }

    /// A button labelled with the text object `text`, as it is.
    pub fn new(text: Text, action_id: &str) -> (r: Button)
        ensures
            r.spec_text() == text,
            r.spec_action_id() == action_id@,
    {
        Button { text, action_id: String::from_str(action_id) }
    }

    /// Violations of a button at `path`: a plain-text label of at most 75
    /// characters, `action_id` at most 255.
    pub open spec fn violations_at(&self, path: Seq<PathSegment>) -> Seq<Fault> {
        plain_text_at(path, Field::Text, self.spec_text(), 75)
            + fault_at(path, Field::ActionId, spec_max_length(self.spec_action_id(), 255))
    }

    pub open spec fn violations(&self) -> Seq<Fault> {
        self.violations_at(Seq::empty())
    }

    /// Appends the violations of this button, at `path`, to `out`.
    pub fn check(&self, path: &Vec<PathSegment>, out: &mut Vec<Violation>)
        ensures
            faults_of(final(out)@) == faults_of(old(out)@) + self.violations_at(path@),
    {
        let ghost start = faults_of(out@);
        check_plain_text(&self.text, 75, path, Field::Text, out);
        record(out, path, Field::ActionId, max_length(self.action_id.as_str(), 255));
        assert(faults_of(out@) =~= start + self.violations_at(path@));
    }

    /// Validates this button, reporting every violation.
    pub fn validate(&self) -> (r: Result<(), Report>)
        ensures
            outcome(self.violations(), r),
    {
        let mut out: Vec<Violation> = Vec::new();
        self.check(&Vec::new(), &mut out);
        assert(faults_of(Seq::<Violation>::empty()) =~= Seq::<Fault>::empty());
        assert(self.violations() =~= Seq::<Fault>::empty() + self.violations());
        conclude(out)
    }
}

/// The kinds of block element, as tagged on the wire.
#[derive(Clone, Copy, Debug, PartialEq, Eq, Structural)]
pub enum ElementKind {
    Button,
    Checkboxes,
    DatePicker,
    Image,
    MultiSelectUser,
    MultiSelectConversation,
    OverflowMenu,
    PlainInput,
    RadioButtons,
    SelectPublicChannel,
    SelectConversation,
}

/// The general family of block elements.
#[derive(Clone, Debug, PartialEq, Eq, Hash)]
pub enum BlockElement {
    Button(Button),
    Checkboxes(Checkboxes),
    DatePicker,
    Image,
    MultiSelectUser(multi::User),
    MultiSelectConversation(multi::Conversation),
    OverflowMenu,
    PlainInput,
    RadioButtons,
    SelectPublicChannel(select::PublicChannel),
    SelectConversation(select::Conversation),
}

impl BlockElement {
    pub open spec fn spec_kind(&self) -> ElementKind {
        match self {
            BlockElement::Button(_) => ElementKind::Button,
            BlockElement::Checkboxes(_) => ElementKind::Checkboxes,
            BlockElement::DatePicker => ElementKind::DatePicker,
            BlockElement::Image => ElementKind::Image,
            BlockElement::MultiSelectUser(_) => ElementKind::MultiSelectUser,
            BlockElement::MultiSelectConversation(_) => ElementKind::MultiSelectConversation,
            BlockElement::OverflowMenu => ElementKind::OverflowMenu,
            BlockElement::PlainInput => ElementKind::PlainInput,
            BlockElement::RadioButtons => ElementKind::RadioButtons,
            BlockElement::SelectPublicChannel(_) => ElementKind::SelectPublicChannel,
            BlockElement::SelectConversation(_) => ElementKind::SelectConversation,
        }
    }

    /// The kind of this element.
    pub fn kind(&self) -> (r: ElementKind)
        ensures
            r == self.spec_kind(),
    {
        match self {
            BlockElement::Button(_) => ElementKind::Button,
            BlockElement::Checkboxes(_) => ElementKind::Checkboxes,
            BlockElement::DatePicker => ElementKind::DatePicker,
            BlockElement::Image => ElementKind::Image,
            BlockElement::MultiSelectUser(_) => ElementKind::MultiSelectUser,
            BlockElement::MultiSelectConversation(_) => ElementKind::MultiSelectConversation,
            BlockElement::OverflowMenu => ElementKind::OverflowMenu,
            BlockElement::PlainInput => ElementKind::PlainInput,
            BlockElement::RadioButtons => ElementKind::RadioButtons,
            BlockElement::SelectPublicChannel(_) => ElementKind::SelectPublicChannel,
            BlockElement::SelectConversation(_) => ElementKind::SelectConversation,
        }
    }
}

} // verus!
