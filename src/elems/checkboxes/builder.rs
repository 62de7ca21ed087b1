//! The checkbox group builder.
use vstd::prelude::*;

use std::marker::PhantomData;

pub mod method;

use super::Checkboxes;
use crate::compose::{Confirm, Opt};
use crate::stage::{MethodCalled, RequiredMethodNotCalled, Stage};

verus! {

/// The builder in which no required method has been called.
pub type CheckboxesBuilderInit = CheckboxesBuilder<
    RequiredMethodNotCalled<method::action_id>,
    RequiredMethodNotCalled<method::options>,
>;

/// Builds a checkbox group. `build` becomes available once the required
/// methods `action_id` and `options` (or `option`) have been called.
#[derive(Debug)]
pub struct CheckboxesBuilder<A, O> {
    action_id: Option<String>,
    options: Option<Vec<Opt>>,
    initial_options: Option<Vec<Opt>>,
    confirm: Option<Confirm>,
    state: PhantomData<(A, O)>,
}

impl<A: Stage, O: Stage> CheckboxesBuilder<A, O> {
    /// Every required field whose stage says it was set holds a value.
    pub closed spec fn wf(&self) -> bool {
        &&& A::is_set() ==> self.action_id is Some
        &&& O::is_set() ==> self.options is Some
    }

    pub closed spec fn spec_action_id(&self) -> Option<Seq<char>> {
        match self.action_id {
            Some(s) => Some(s@),
            None => None,
        }
    }

    pub closed spec fn spec_options(&self) -> Option<Seq<Opt>> {
        match self.options {
            Some(v) => Some(v@),
            None => None,
        }
    }

    pub closed spec fn spec_initial_options(&self) -> Option<Seq<Opt>> {
        match self.initial_options {
            Some(v) => Some(v@),
            None => None,
        }
    }

    pub closed spec fn spec_confirm(&self) -> Option<Confirm> {
        self.confirm
    }

    /// Sets `action_id`, which identifies the action when the group
    /// changes (required; at most 255 characters).
    pub fn action_id(self, action_id: &str) -> (r: CheckboxesBuilder<
        MethodCalled<method::action_id>,
        O,
    >)
        requires
            self.wf(),
        ensures
            r.wf(),
            r.spec_action_id() == Some(action_id@),
            r.spec_options() == self.spec_options(),
            r.spec_initial_options() == self.spec_initial_options(),
            r.spec_confirm() == self.spec_confirm(),
    {
        CheckboxesBuilder {
            action_id: Some(String::from_str(action_id)),
            options: self.options,
            initial_options: self.initial_options,
            confirm: self.confirm,
            state: PhantomData,
        }
    }

    /// Appends `option` to `options`, as `option` does.
    pub fn child(self, option: Opt) -> (r: CheckboxesBuilder<A, MethodCalled<method::options>>)
        requires
            self.wf(),
        ensures
            r.wf(),
            r.spec_action_id() == self.spec_action_id(),
            r.spec_options() == Some(
                match self.spec_options() {
                    Some(v) => v.push(option),
                    None => seq![option],
                },
            ),
            r.spec_initial_options() == self.spec_initial_options(),
            r.spec_confirm() == self.spec_confirm(),
    {
        self.option(option)
    }

    /// Sets `options`, replacing any set before (required; at most 10).
    pub fn options(self, options: Vec<Opt>) -> (r: CheckboxesBuilder<
        A,
        MethodCalled<method::options>,
    >)
        requires
            self.wf(),
        ensures
            r.wf(),
            r.spec_action_id() == self.spec_action_id(),
            r.spec_options() == Some(options@),
            r.spec_initial_options() == self.spec_initial_options(),
            r.spec_confirm() == self.spec_confirm(),
    {
        CheckboxesBuilder {
            action_id: self.action_id,
            options: Some(options),
            initial_options: self.initial_options,
            confirm: self.confirm,
            state: PhantomData,
        }
    }

    /// Appends one option to `options`; the first call starts the
    /// collection, and this satisfies the requirement as `options` does.
    pub fn option(self, option: Opt) -> (r: CheckboxesBuilder<A, MethodCalled<method::options>>)
        requires
            self.wf(),
        ensures
            r.wf(),
            r.spec_action_id() == self.spec_action_id(),
            r.spec_options() == Some(
                match self.spec_options() {
                    Some(v) => v.push(option),
                    None => seq![option],
                },
            ),
            r.spec_initial_options() == self.spec_initial_options(),
            r.spec_confirm() == self.spec_confirm(),
    {
        let options = match self.options {
            Some(mut options) => {
                options.push(option);
                options
            },
            None => vec![option],
        };

        CheckboxesBuilder {
            action_id: self.action_id,
            options: Some(options),
            initial_options: self.initial_options,
            confirm: self.confirm,
            state: PhantomData,
        }
    }

    /// Sets `initial_options`, the options checked when the group loads
    /// (optional; at most 10).
    pub fn initial_options(self, options: Vec<Opt>) -> (r: Self)
        requires
            self.wf(),
        ensures
            r.wf(),
            r.spec_action_id() == self.spec_action_id(),
            r.spec_options() == self.spec_options(),
            r.spec_initial_options() == Some(options@),
            r.spec_confirm() == self.spec_confirm(),
    {
        CheckboxesBuilder { initial_options: Some(options), ..self }
    }

    /// Sets `confirm`, a dialog shown after a box is clicked (optional).
    pub fn confirm(self, confirm: Confirm) -> (r: Self)
        requires
            self.wf(),
        ensures
            r.wf(),
            r.spec_action_id() == self.spec_action_id(),
            r.spec_options() == self.spec_options(),
            r.spec_initial_options() == self.spec_initial_options(),
            r.spec_confirm() == Some(confirm),
    {
        CheckboxesBuilder { confirm: Some(confirm), ..self }
    }
}

impl CheckboxesBuilder<
    RequiredMethodNotCalled<method::action_id>,
    RequiredMethodNotCalled<method::options>,
> {
    /// A builder with no field set.
    pub fn new() -> (r: Self)
        ensures
            r.wf(),
            r.spec_action_id() is None,
            r.spec_options() is None,
            r.spec_initial_options() is None,
            r.spec_confirm() is None,
    {
        CheckboxesBuilder {
            action_id: None,
            options: None,
            initial_options: None,
            confirm: None,
            state: PhantomData,
        }
    }
}

impl CheckboxesBuilder<MethodCalled<method::action_id>, MethodCalled<method::options>> {
    /// Assembles the checkbox group from the fields set; no content is
    /// checked here (see `Checkboxes::validate`).
    pub fn build(self) -> (r: Checkboxes)
        requires
            self.wf(),
        ensures
            Some(r.spec_action_id()) == self.spec_action_id(),
            Some(r.spec_options()) == self.spec_options(),
            r.spec_initial_options() == self.spec_initial_options(),
            r.spec_confirm() == self.spec_confirm(),
    {
        Checkboxes::from_parts(
            self.action_id.unwrap(),
            self.options.unwrap(),
            self.initial_options,
            self.confirm,
        )
    }

    /// A builder that reached `build` has every required field set.
    pub proof fn lemma_required_fields_set(&self)
        requires
            self.wf(),
        ensures
            self.spec_action_id() is Some,
            self.spec_options() is Some,
    {
    }
}

} // verus!
