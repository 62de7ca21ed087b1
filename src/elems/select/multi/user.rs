//! Multi-select menu over the users of the workspace.
use vstd::prelude::*;

use std::marker::PhantomData;

use crate::compose::Confirm;
use crate::elems::select::{method, placeholder, placeholder_at};
use crate::compose::Text;
use crate::stage::{MethodCalled, RequiredMethodNotCalled, Stage};
use crate::validation::{
    conclude, extend_path, fault_at, faults_of, max_length, min_value, outcome, record,
    spec_max_length, spec_min_value, Fault, Field, PathSegment, Report, Violation,
};

verus! {

/// A multi-select menu listing the users visible in the workspace.
#[derive(Clone, Debug, PartialEq, Eq, Hash)]
pub struct User {
    placeholder: Text,
    action_id: String,
    confirm: Option<Confirm>,
    initial_users: Option<Vec<String>>,
    max_selected_items: Option<u32>,
}

impl User {
    pub closed spec fn spec_placeholder(&self) -> Text {
        self.placeholder
    }

    pub closed spec fn spec_action_id(&self) -> Seq<char> {
        self.action_id@
    }

    pub closed spec fn spec_confirm(&self) -> Option<Confirm> {
        self.confirm
    }

    pub closed spec fn spec_initial_users(&self) -> Option<Seq<String>> {
        match self.initial_users {
            Some(v) => Some(v@),
            None => None,
        }
    }

    pub closed spec fn spec_max_selected_items(&self) -> Option<u32> {
        self.max_selected_items
    }

    /// The placeholder shown while nothing is chosen.
    pub fn placeholder(&self) -> (r: &Text)
        ensures
            *r == self.spec_placeholder(),
    {
        &self.placeholder
    }

    /// The identifier of the action.
    pub fn action_id(&self) -> (r: &str)
        ensures
            r@ == self.spec_action_id(),
    {
        self.action_id.as_str()
    }

    /// The confirmation dialog.
    pub fn confirm(&self) -> (r: Option<&Confirm>)
        ensures
            match r {
                Some(c) => self.spec_confirm() == Some(*c),
                None => self.spec_confirm() is None,
            },
    {
        self.confirm.as_ref()
    }

    /// The users selected when the menu loads.
    pub fn initial_users(&self) -> (r: Option<&Vec<String>>)
        ensures
            match r {
                Some(v) => self.spec_initial_users() == Some(v@),
                None => self.spec_initial_users() is None,
            },
    {
        match &self.initial_users {
            Some(v) => Some(v),
            None => None,
        }
    }

    /// The most items that may be selected.
    pub fn max_selected_items(&self) -> (r: Option<u32>)
        ensures
            r == self.spec_max_selected_items(),
    {
        self.max_selected_items
    }

    /// A builder in which no required method has been called.
    pub fn builder() -> (r: MultiUserBuilderInit)
        ensures
            r.wf(),
            r.spec_placeholder() is None,
            r.spec_action_id() is None,
            r.spec_confirm() is None,
            r.spec_initial_users() is None,
            r.spec_max_selected_items() is None,
    {
        MultiUserBuilder::new()
    }

    /// Violations of the menu at `path`: a plain placeholder of at most 150
    /// characters, `action_id` at most 255 characters, a valid dialog, and
    /// `max_selected_items` at least 1.
    pub open spec fn violations_at(&self, path: Seq<PathSegment>) -> Seq<Fault> {
        placeholder_at(path, self.spec_placeholder())
            + fault_at(path, Field::ActionId, spec_max_length(self.spec_action_id(), 255))
            + match self.spec_confirm() {
                Some(c) => c.violations_at(path.push(PathSegment::Field(Field::Confirm))),
                None => Seq::empty(),
            }
            + match self.spec_max_selected_items() {
                Some(n) => fault_at(path, Field::MaxSelectedItems, spec_min_value(n, 1)),
                None => Seq::empty(),
            }
    }

    pub open spec fn violations(&self) -> Seq<Fault> {
        self.violations_at(Seq::empty())
    }

    /// Appends the violations of this menu, at `path`, to `out`.
    pub fn check(&self, path: &Vec<PathSegment>, out: &mut Vec<Violation>)
        ensures
            faults_of(final(out)@) == faults_of(old(out)@) + self.violations_at(path@),
    {
        let ghost start = faults_of(out@);
        placeholder(&self.placeholder, path, out);
        record(out, path, Field::ActionId, max_length(self.action_id.as_str(), 255));
        match &self.confirm {
            Some(c) => {
                let p = extend_path(path, PathSegment::Field(Field::Confirm));
                c.check(&p, out);
            },
            None => {},
        }
        match self.max_selected_items {
            Some(n) => record(out, path, Field::MaxSelectedItems, min_value(n, 1)),
            None => {},
        }
        assert(faults_of(out@) =~= start + self.violations_at(path@));
    }

    /// Validates this menu, reporting every violation.
    pub fn validate(&self) -> (r: Result<(), Report>)
        ensures
            outcome(self.violations(), r),
    {
        let mut out: Vec<Violation> = Vec::new();
        self.check(&Vec::new(), &mut out);
        assert(faults_of(Seq::<Violation>::empty()) =~= Seq::<Fault>::empty());
        assert(self.violations() =~= Seq::<Fault>::empty() + self.violations());
        conclude(out)
    }
}

/// The builder in which no required method has been called.
pub type MultiUserBuilderInit = MultiUserBuilder<
    RequiredMethodNotCalled<method::placeholder>,
    RequiredMethodNotCalled<method::action_id>,
>;

/// Builds a user multi-select menu. `build` becomes available once the
/// required methods `placeholder` and `action_id` have been called.
#[derive(Debug)]
pub struct MultiUserBuilder<P, A> {
    placeholder: Option<Text>,
    action_id: Option<String>,
    confirm: Option<Confirm>,
    initial_users: Option<Vec<String>>,
    max_selected_items: Option<u32>,
    state: PhantomData<(P, A)>,
}

impl<P: Stage, A: Stage> MultiUserBuilder<P, A> {
    /// Every required field whose stage says it was set holds a value.
    pub closed spec fn wf(&self) -> bool {
        &&& P::is_set() ==> self.placeholder is Some
        &&& A::is_set() ==> self.action_id is Some
    }

    pub closed spec fn spec_placeholder(&self) -> Option<Text> {
        self.placeholder
    }

    pub closed spec fn spec_action_id(&self) -> Option<Seq<char>> {
        match self.action_id {
            Some(s) => Some(s@),
            None => None,
        }
    }

    pub closed spec fn spec_confirm(&self) -> Option<Confirm> {
        self.confirm
    }

    pub closed spec fn spec_initial_users(&self) -> Option<Seq<String>> {
        match self.initial_users {
            Some(v) => Some(v@),
            None => None,
        }
    }

    pub closed spec fn spec_max_selected_items(&self) -> Option<u32> {
        self.max_selected_items
    }

    /// Sets the placeholder, shown as plain text while nothing is chosen
    /// (required; at most 150 characters).
    pub fn placeholder(self, placeholder: &str) -> (r: MultiUserBuilder<
        MethodCalled<method::placeholder>,
        A,
    >)
        requires
            self.wf(),
        ensures
            r.wf(),
            r.spec_placeholder() matches Some(t) && t.is_plain() && t.spec_text() == placeholder@,
            r.spec_action_id() == self.spec_action_id(),
            r.spec_confirm() == self.spec_confirm(),
            r.spec_initial_users() == self.spec_initial_users(),
            r.spec_max_selected_items() == self.spec_max_selected_items(),
    {
        MultiUserBuilder {
            placeholder: Some(Text::plain(placeholder)),
            action_id: self.action_id,
            confirm: self.confirm,
            initial_users: self.initial_users,
            max_selected_items: self.max_selected_items,
            state: PhantomData,
        }
    }

    /// Sets the placeholder to the text object `placeholder`, as it is
    /// (required; plain text of at most 150 characters).
    pub fn placeholder_text(self, placeholder: Text) -> (r: MultiUserBuilder<
        MethodCalled<method::placeholder>,
        A,
    >)
        requires
            self.wf(),
        ensures
            r.wf(),
            r.spec_placeholder() == Some(placeholder),
            r.spec_action_id() == self.spec_action_id(),
            r.spec_confirm() == self.spec_confirm(),
            r.spec_initial_users() == self.spec_initial_users(),
            r.spec_max_selected_items() == self.spec_max_selected_items(),
    {
        MultiUserBuilder {
            placeholder: Some(placeholder),
            action_id: self.action_id,
            confirm: self.confirm,
            initial_users: self.initial_users,
            max_selected_items: self.max_selected_items,
            state: PhantomData,
        }
    }

    /// Sets `action_id` (required; at most 255 characters).
    pub fn action_id(self, action_id: &str) -> (r: MultiUserBuilder<
        P,
        MethodCalled<method::action_id>,
    >)
        requires
            self.wf(),
        ensures
            r.wf(),
            r.spec_placeholder() == self.spec_placeholder(),
            r.spec_action_id() == Some(action_id@),
            r.spec_confirm() == self.spec_confirm(),
            r.spec_initial_users() == self.spec_initial_users(),
            r.spec_max_selected_items() == self.spec_max_selected_items(),
    {
        MultiUserBuilder {
            placeholder: self.placeholder,
            action_id: Some(String::from_str(action_id)),
            confirm: self.confirm,
            initial_users: self.initial_users,
            max_selected_items: self.max_selected_items,
            state: PhantomData,
        }
    }

    /// Sets the confirmation dialog (optional).
    pub fn confirm(self, confirm: Confirm) -> (r: Self)
        requires
            self.wf(),
        ensures
            r.wf(),
            r.spec_placeholder() == self.spec_placeholder(),
            r.spec_action_id() == self.spec_action_id(),
            r.spec_confirm() == Some(confirm),
            r.spec_initial_users() == self.spec_initial_users(),
            r.spec_max_selected_items() == self.spec_max_selected_items(),
    {
        MultiUserBuilder { confirm: Some(confirm), ..self }
    }

    /// Sets the users selected when the menu loads (optional).
    pub fn initial_users(self, users: Vec<String>) -> (r: Self)
        requires
            self.wf(),
        ensures
            r.wf(),
            r.spec_placeholder() == self.spec_placeholder(),
            r.spec_action_id() == self.spec_action_id(),
            r.spec_confirm() == self.spec_confirm(),
            r.spec_initial_users() == Some(users@),
            r.spec_max_selected_items() == self.spec_max_selected_items(),
    {
        MultiUserBuilder { initial_users: Some(users), ..self }
    }

    /// Sets the most items that may be selected (optional; at least 1).
    pub fn max_selected_items(self, max: u32) -> (r: Self)
        requires
            self.wf(),
        ensures
            r.wf(),
            r.spec_placeholder() == self.spec_placeholder(),
            r.spec_action_id() == self.spec_action_id(),
            r.spec_confirm() == self.spec_confirm(),
            r.spec_initial_users() == self.spec_initial_users(),
            r.spec_max_selected_items() == Some(max),
    {
        MultiUserBuilder { max_selected_items: Some(max), ..self }
    }
}

impl MultiUserBuilderInit {
    /// A builder with no field set.
    pub fn new() -> (r: Self)
        ensures
            r.wf(),
            r.spec_placeholder() is None,
            r.spec_action_id() is None,
            r.spec_confirm() is None,
            r.spec_initial_users() is None,
            r.spec_max_selected_items() is None,
    {
        MultiUserBuilder {
            placeholder: None,
            action_id: None,
            confirm: None,
            initial_users: None,
            max_selected_items: None,
            state: PhantomData,
        }
    }
}

impl MultiUserBuilder<MethodCalled<method::placeholder>, MethodCalled<method::action_id>> {
    /// Assembles the menu from the fields set; no content is checked here.
    pub fn build(self) -> (r: User)
        requires
            self.wf(),
        ensures
            Some(r.spec_placeholder()) == self.spec_placeholder(),
            Some(r.spec_action_id()) == self.spec_action_id(),
            r.spec_confirm() == self.spec_confirm(),
            r.spec_initial_users() == self.spec_initial_users(),
            r.spec_max_selected_items() == self.spec_max_selected_items(),
    {
        User {
            placeholder: self.placeholder.unwrap(),
            action_id: self.action_id.unwrap(),
            confirm: self.confirm,
            initial_users: self.initial_users,
            max_selected_items: self.max_selected_items,
        }
    }

    /// A builder that reached `build` has every required field set.
    pub proof fn lemma_required_fields_set(&self)
        requires
            self.wf(),
        ensures
            self.spec_placeholder() is Some,
            self.spec_action_id() is Some,
    {
    }
}

} // verus!
