//! Checkbox group: lets a user choose several items from a list of options.
use vstd::prelude::*;

pub mod builder;

use crate::compose::{check_opts, opts_at, Confirm, Opt};
use crate::stage::RequiredMethodNotCalled;
use crate::validation::{
    bounded_count, conclude, fault_at, faults_of, max_length, outcome, record, spec_bounded_count,
    spec_max_length, ConstraintResult, Fault, Field, PathSegment, Report, Violation,
};
use self::builder::{method, CheckboxesBuilder};

verus! {

/// At most 10 options.
fn validate_options(o: &Vec<Opt>) -> (r: ConstraintResult)
    ensures
        r == spec_bounded_count(o@.len(), 10),
{
    bounded_count(o.len(), 10)
}

/// At most 10 initial options.
fn validate_initial_options(o: &Vec<Opt>) -> (r: ConstraintResult)
    ensures
        r == spec_bounded_count(o@.len(), 10),
{
    bounded_count(o.len(), 10)
}

/// A checkbox group.
#[derive(Clone, Debug, PartialEq, Eq, Hash)]
pub struct Checkboxes {
    action_id: String,
    options: Vec<Opt>,
    initial_options: Option<Vec<Opt>>,
    confirm: Option<Confirm>,
}

impl Checkboxes {
    pub closed spec fn spec_action_id(&self) -> Seq<char> {
        self.action_id@
    }

    pub closed spec fn spec_options(&self) -> Seq<Opt> {
        self.options@
    }

    pub closed spec fn spec_initial_options(&self) -> Option<Seq<Opt>> {
        match self.initial_options {
            Some(v) => Some(v@),
            None => None,
        }
    }

    pub closed spec fn spec_confirm(&self) -> Option<Confirm> {
        self.confirm
    }

    /// The identifier of the action.
    pub fn action_id(&self) -> (r: &str)
        ensures
            r@ == self.spec_action_id(),
    {
        self.action_id.as_str()
    }

    /// The options, in order.
    pub fn options(&self) -> (r: &Vec<Opt>)
        ensures
            r@ == self.spec_options(),
    {
        &self.options
    }

    /// The options checked when the group loads.
    pub fn initial_options(&self) -> (r: Option<&Vec<Opt>>)
        ensures
            match r {
                Some(v) => self.spec_initial_options() == Some(v@),
                None => self.spec_initial_options() is None,
            },
    {
        match &self.initial_options {
            Some(v) => Some(v),
            None => None,
        }
    }

    /// The confirmation dialog.
    pub fn confirm(&self) -> (r: Option<&Confirm>)
        ensures
            match r {
                Some(c) => self.spec_confirm() == Some(*c),
                None => self.spec_confirm() is None,
            },
    {
        self.confirm.as_ref()
    }

    /// Assembles a checkbox group from its fields.
    pub(crate) fn from_parts(
        action_id: String,
        options: Vec<Opt>,
        initial_options: Option<Vec<Opt>>,
        confirm: Option<Confirm>,
    ) -> (r: Checkboxes)
        ensures
            r.spec_action_id() == action_id@,
            r.spec_options() == options@,
            r.spec_initial_options() == (match initial_options {
                Some(v) => Some(v@),
                None => None::<Seq<Opt>>,
            }),
            r.spec_confirm() == confirm,
    {
        Checkboxes { action_id, options, initial_options, confirm }
    }

    /// A builder in which no required method has been called.
    pub fn builder() -> (r: CheckboxesBuilder<
        RequiredMethodNotCalled<method::action_id>,
        RequiredMethodNotCalled<method::options>,
    >)
        ensures
            r.wf(),
            r.spec_action_id() is None,
            r.spec_options() is None,
            r.spec_initial_options() is None,
            r.spec_confirm() is None,
    {
        CheckboxesBuilder::new()
    }

    /// Violations of a checkbox group at `path`: `action_id` at most 255
    /// characters; at most 10 options and 10 initial options, each valid;
    /// a valid confirmation dialog.
    pub open spec fn violations_at(&self, path: Seq<PathSegment>) -> Seq<Fault> {
        fault_at(path, Field::ActionId, spec_max_length(self.spec_action_id(), 255))
            + fault_at(path, Field::Options, spec_bounded_count(self.spec_options().len(), 10))
            + opts_at(path, Field::Options, self.spec_options())
            + match self.spec_initial_options() {
                Some(v) => fault_at(path, Field::InitialOptions, spec_bounded_count(v.len(), 10))
                    + opts_at(path, Field::InitialOptions, v),
                None => Seq::empty(),
            }
            + match self.spec_confirm() {
                Some(c) => c.violations_at(path.push(PathSegment::Field(Field::Confirm))),
                None => Seq::empty(),
            }
    }

    pub open spec fn violations(&self) -> Seq<Fault> {
        self.violations_at(Seq::empty())
    }

    /// Appends the violations of this checkbox group, at `path`, to `out`.
    pub fn check(&self, path: &Vec<PathSegment>, out: &mut Vec<Violation>)
        ensures
            faults_of(final(out)@) == faults_of(old(out)@) + self.violations_at(path@),
    {
        let ghost start = faults_of(out@);
        let ghost p = path@;
        record(out, path, Field::ActionId, max_length(self.action_id.as_str(), 255));
        record(out, path, Field::Options, validate_options(&self.options));
        check_opts(&self.options, path, Field::Options, out);
        let ghost options_part = fault_at(p, Field::ActionId, spec_max_length(self.spec_action_id(), 255))
            + fault_at(p, Field::Options, spec_bounded_count(self.spec_options().len(), 10))
            + opts_at(p, Field::Options, self.spec_options());
        assert(faults_of(out@) =~= start + options_part);
        let ghost initial_part = match self.spec_initial_options() {
            Some(v) => fault_at(p, Field::InitialOptions, spec_bounded_count(v.len(), 10))
                + opts_at(p, Field::InitialOptions, v),
            None => Seq::<Fault>::empty(),
        };
        match &self.initial_options {
            Some(v) => {
                record(out, path, Field::InitialOptions, validate_initial_options(v));
                check_opts(v, path, Field::InitialOptions, out);
            },
            None => {},
        }
        assert(faults_of(out@) =~= start + options_part + initial_part);
        match &self.confirm {
            Some(c) => {
                let p = crate::validation::extend_path(path, PathSegment::Field(Field::Confirm));
                c.check(&p, out);
            },
            None => {},
        }
        assert(faults_of(out@) =~= start + self.violations_at(path@));
    }

    /// Validates this checkbox group, reporting every violation.
    pub fn validate(&self) -> (r: Result<(), Report>)
        ensures
            outcome(self.violations(), r),
    {
        let mut out: Vec<Violation> = Vec::new();
        self.check(&Vec::new(), &mut out);
        assert(faults_of(Seq::<Violation>::empty()) =~= Seq::<Fault>::empty());
        assert(self.violations() =~= Seq::<Fault>::empty() + self.violations());
        conclude(out)
    }
}

} // verus!
