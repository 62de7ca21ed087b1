//! Select menus: the kinds of menu, and the public channel menu.
use vstd::prelude::*;

use crate::compose::Text;
use crate::elems::select::{placeholder, placeholder_at};
use crate::validation::{
    conclude, fault_at, faults_of, max_length, outcome, record, spec_max_length, Fault, Field,
    PathSegment, Report, Violation,
};

verus! {

/// Select menu with a static list of options.
#[derive(Clone, Default, Debug, PartialEq, Eq, Hash)]
pub struct Static {}

/// Select menu that loads its options from an external data source.
#[derive(Clone, Default, Debug, PartialEq, Eq, Hash)]
pub struct External {}

/// Select menu over the users of the workspace.
#[derive(Clone, Default, Debug, PartialEq, Eq, Hash)]
pub struct User {}

/// Select menu over the conversations of the workspace.
#[derive(Clone, Default, Debug, PartialEq, Eq, Hash)]
pub struct Conversation {}

/// Select menu over the public channels of the workspace.
#[derive(Clone, Default, Debug, PartialEq, Eq, Hash)]
pub struct Channel {}

/// The kinds of select menu.
#[derive(Clone, Debug, PartialEq, Eq, Hash)]
pub enum Contents {
    Static(Static),
    External(External),
    User(User),
    Conversation(Conversation),
    Channel(Channel),
}

/// A select menu over the public channels, with a placeholder and an
/// `action_id`.
#[derive(Clone, Debug, PartialEq, Eq, Hash)]
pub struct PublicChannel {
    placeholder: Text,
    action_id: String,
}

impl PublicChannel {
    pub closed spec fn spec_placeholder(&self) -> Text {
        self.placeholder
    }

    pub closed spec fn spec_action_id(&self) -> Seq<char> {
        self.action_id@
    }

    /// The placeholder shown while nothing is chosen.
    pub fn placeholder(&self) -> (r: &Text)
        ensures
            *r == self.spec_placeholder(),
    {
        &self.placeholder
    }

    /// The identifier of the action.
    pub fn action_id(&self) -> (r: &str)
        ensures
            r@ == self.spec_action_id(),
    {
        self.action_id.as_str()
    }

    /// Violations of the menu at `path`: a plain placeholder of at most 150
    /// characters, `action_id` at most 255 characters.
    pub open spec fn violations_at(&self, path: Seq<PathSegment>) -> Seq<Fault> {
        placeholder_at(path, self.spec_placeholder())
            + fault_at(path, Field::ActionId, spec_max_length(self.spec_action_id(), 255))
    }

    pub open spec fn violations(&self) -> Seq<Fault> {
        self.violations_at(Seq::empty())
    }

    /// Appends the violations of this menu, at `path`, to `out`.
    pub fn check(&self, path: &Vec<PathSegment>, out: &mut Vec<Violation>)
        ensures
            faults_of(final(out)@) == faults_of(old(out)@) + self.violations_at(path@),
    {
        let ghost start = faults_of(out@);
        placeholder(&self.placeholder, path, out);
        record(out, path, Field::ActionId, max_length(self.action_id.as_str(), 255));
        assert(faults_of(out@) =~= start + self.violations_at(path@));
    }

    /// Validates this menu, reporting every violation.
    pub fn validate(&self) -> (r: Result<(), Report>)
        ensures
            outcome(self.violations(), r),
    {
        let mut out: Vec<Violation> = Vec::new();
        self.check(&Vec::new(), &mut out);
        assert(faults_of(Seq::<Violation>::empty()) =~= Seq::<Fault>::empty());
        assert(self.violations() =~= Seq::<Fault>::empty() + self.violations());
        conclude(out)
    }
}

/// A select menu of any kind.
#[derive(Clone, Debug, PartialEq, Eq, Hash)]
pub enum Select {
    Static(Static),
    External(External),
    User(User),
    Conversation(Conversation),
    PublicChannel(PublicChannel),
}

/// Holds the placeholder and `action_id` of a select menu until its kind is
/// chosen.
#[derive(Clone, Debug, PartialEq, Eq, Hash)]
pub struct SelectBuilder {
    placeholder: Text,
    action_id: String,
}

impl SelectBuilder {
    pub closed spec fn spec_placeholder(&self) -> Text {
        self.placeholder
    }

    pub closed spec fn spec_action_id(&self) -> Seq<char> {
        self.action_id@
    }

    /// A menu over the public channels, with the placeholder and
    /// `action_id` held.
    pub fn choose_from_public_channels(self) -> (r: PublicChannel)
        ensures
            r.spec_placeholder() == self.spec_placeholder(),
            r.spec_action_id() == self.spec_action_id(),
    {
        PublicChannel { placeholder: self.placeholder, action_id: self.action_id }
    }
}

impl Select {
    /// Starts a select menu with `placeholder` and `action_id`; its kind is
    /// chosen on the returned builder.
    pub fn from_placeholder_and_action_id(placeholder: Text, action_id: &str) -> (r: SelectBuilder)
        ensures
            r.spec_placeholder() == placeholder,
            r.spec_action_id() == action_id@,
    {
        SelectBuilder { placeholder, action_id: String::from_str(action_id) }
    }
}

} // verus!
