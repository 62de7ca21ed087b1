//! Actions block: holds up to five interactive elements.
use vstd::prelude::*;

use crate::block_elements::{self, select, Button, ElementKind};
use crate::elems::Checkboxes;
use crate::validation::{
    bounded_count, conclude, fault_at, faults_of, index_path, max_length, outcome, record,
    spec_bounded_count, spec_max_length, Fault, Field, PathSegment, Report, Violation,
};

verus! {

/// The error of narrowing an element that an actions block does not accept:
/// the kind of the offending element.
#[derive(Clone, Copy, Debug, PartialEq, Eq, Structural)]
pub struct UnsupportedElementError {
    pub kind: ElementKind,
}

/// The block elements that an actions block accepts.
#[derive(Clone, Debug, PartialEq, Eq, Hash)]
pub enum BlockElement {
    Button(Button),
    Checkboxes(Checkboxes),
    DatePicker,
    OverflowMenu,
    PlainInput,
    RadioButtons,
    SelectPublicChannel(select::PublicChannel),
    SelectConversation(select::Conversation),
}

impl BlockElement {
    /// Whether an actions block accepts elements of kind `k`.
    pub open spec fn accepts(k: ElementKind) -> bool {
        match k {
            ElementKind::Image | ElementKind::MultiSelectUser | ElementKind::MultiSelectConversation => false,
            _ => true,
        }
    }

    /// This element as a member of the general family.
    pub open spec fn widened(self) -> block_elements::BlockElement {
        match self {
            BlockElement::Button(b) => block_elements::BlockElement::Button(b),
            BlockElement::Checkboxes(c) => block_elements::BlockElement::Checkboxes(c),
            BlockElement::DatePicker => block_elements::BlockElement::DatePicker,
            BlockElement::OverflowMenu => block_elements::BlockElement::OverflowMenu,
            BlockElement::PlainInput => block_elements::BlockElement::PlainInput,
            BlockElement::RadioButtons => block_elements::BlockElement::RadioButtons,
            BlockElement::SelectPublicChannel(s) => block_elements::BlockElement::SelectPublicChannel(s),
            BlockElement::SelectConversation(s) => block_elements::BlockElement::SelectConversation(s),
        }
    }

    /// `el` as an element of an actions block, or the error naming its kind.
    pub open spec fn narrowed(el: block_elements::BlockElement) -> Result<BlockElement, UnsupportedElementError> {
        match el {
            block_elements::BlockElement::Button(b) => Ok(BlockElement::Button(b)),
            block_elements::BlockElement::Checkboxes(c) => Ok(BlockElement::Checkboxes(c)),
            block_elements::BlockElement::DatePicker => Ok(BlockElement::DatePicker),
            block_elements::BlockElement::OverflowMenu => Ok(BlockElement::OverflowMenu),
            block_elements::BlockElement::PlainInput => Ok(BlockElement::PlainInput),
            block_elements::BlockElement::RadioButtons => Ok(BlockElement::RadioButtons),
            block_elements::BlockElement::SelectPublicChannel(s) => Ok(BlockElement::SelectPublicChannel(s)),
            block_elements::BlockElement::SelectConversation(s) => Ok(BlockElement::SelectConversation(s)),
            other => Err(UnsupportedElementError { kind: other.spec_kind() }),
        }
    }

    /// Widens this element into the general family; never fails.
    pub fn widen(self) -> (r: block_elements::BlockElement)
        ensures
            r == self.widened(),
            Self::accepts(r.spec_kind()),
    {
        match self {
            BlockElement::Button(b) => block_elements::BlockElement::Button(b),
            BlockElement::Checkboxes(c) => block_elements::BlockElement::Checkboxes(c),
            BlockElement::DatePicker => block_elements::BlockElement::DatePicker,
            BlockElement::OverflowMenu => block_elements::BlockElement::OverflowMenu,
            BlockElement::PlainInput => block_elements::BlockElement::PlainInput,
            BlockElement::RadioButtons => block_elements::BlockElement::RadioButtons,
            BlockElement::SelectPublicChannel(s) => block_elements::BlockElement::SelectPublicChannel(s),
            BlockElement::SelectConversation(s) => block_elements::BlockElement::SelectConversation(s),
        }
    }

    /// Narrows `el` into the elements that an actions block accepts; fails,
    /// naming the kind of `el`, exactly when the block does not accept it.
    pub fn narrow(el: block_elements::BlockElement) -> (r: Result<BlockElement, UnsupportedElementError>)
        ensures
            r == Self::narrowed(el),
            r is Ok <==> Self::accepts(el.spec_kind()),
            r matches Ok(x) ==> x.widened() == el,
            r matches Err(e) ==> e.kind == el.spec_kind(),
    {
        match el {
            block_elements::BlockElement::Button(b) => Ok(BlockElement::Button(b)),
            block_elements::BlockElement::Checkboxes(c) => Ok(BlockElement::Checkboxes(c)),
            block_elements::BlockElement::DatePicker => Ok(BlockElement::DatePicker),
            block_elements::BlockElement::OverflowMenu => Ok(BlockElement::OverflowMenu),
            block_elements::BlockElement::PlainInput => Ok(BlockElement::PlainInput),
            block_elements::BlockElement::RadioButtons => Ok(BlockElement::RadioButtons),
            block_elements::BlockElement::SelectPublicChannel(s) => Ok(BlockElement::SelectPublicChannel(s)),
            block_elements::BlockElement::SelectConversation(s) => Ok(BlockElement::SelectConversation(s)),
            other => {
                let kind = other.kind();
                Err(UnsupportedElementError { kind })
            },
        }
    }

    /// Violations of the element at `path`: those of its own node, if it
    /// has one.
    pub open spec fn violations_at(&self, path: Seq<PathSegment>) -> Seq<Fault> {
        match self {
            BlockElement::Button(b) => b.violations_at(path),
            BlockElement::Checkboxes(c) => c.violations_at(path),
            BlockElement::SelectPublicChannel(s) => s.violations_at(path),
            _ => Seq::empty(),
        }
    }

    /// Appends the violations of this element, at `path`, to `out`.
    pub fn check(&self, path: &Vec<PathSegment>, out: &mut Vec<Violation>)
        ensures
            faults_of(final(out)@) == faults_of(old(out)@) + self.violations_at(path@),
    {
        match self {
            BlockElement::Button(b) => b.check(path, out),
            BlockElement::Checkboxes(c) => c.check(path, out),
            BlockElement::SelectPublicChannel(s) => s.check(path, out),
            _ => {
                assert(faults_of(out@) =~= faults_of(out@) + self.violations_at(path@));
            },
        }
    }
}

/// Narrowing is undone by widening: every element of the family comes back
/// unchanged from a round trip through the general family.
pub proof fn narrow_after_widen(x: BlockElement)
    ensures
        BlockElement::narrowed(x.widened()) == Ok::<BlockElement, UnsupportedElementError>(x),
{
}

/// An element of a kind outside the family fails to narrow, with an error
/// that names that kind.
pub proof fn narrow_rejects_foreign(el: block_elements::BlockElement)
    requires
        !BlockElement::accepts(el.spec_kind()),
    ensures
        BlockElement::narrowed(el) == Err::<BlockElement, UnsupportedElementError>(
            UnsupportedElementError { kind: el.spec_kind() },
        ),
{
}

/// Narrows each element in order; the first that fails gives the error.
pub open spec fn narrow_all(els: Seq<block_elements::BlockElement>) -> Result<Seq<BlockElement>, UnsupportedElementError>
    decreases els.len(),
{
    if els.len() == 0 {
        Ok(Seq::empty())
    } else {
        match BlockElement::narrowed(els[0]) {
            Err(e) => Err(e),
            Ok(x) => match narrow_all(els.drop_first()) {
                Ok(v) => Ok(seq![x] + v),
                Err(e) => Err(e),
            },
        }
    }
}

/// Violations of the elements `els`, each at its own index of field
/// `elements` of the node at `path`.
pub open spec fn elements_at(path: Seq<PathSegment>, els: Seq<BlockElement>) -> Seq<Fault>
    decreases els.len(),
{
    if els.len() == 0 {
        Seq::empty()
    } else {
        elements_at(path, els.drop_last()) + els.last().violations_at(
            path.push(PathSegment::Field(Field::Elements)).push(PathSegment::Index((els.len() - 1) as usize)),
        )
    }
}

/// An actions block.
#[derive(Clone, Debug, PartialEq, Eq, Hash)]
pub struct Contents {
    elements: Vec<BlockElement>,
    block_id: Option<String>,
}

impl Contents {
    pub closed spec fn spec_elements(&self) -> Seq<BlockElement> {
        self.elements@
    }

    pub closed spec fn spec_block_id(&self) -> Option<Seq<char>> {
        match self.block_id {
            Some(s) => Some(s@),
            None => None,
        }
    }

    /// The elements, in order.
    pub fn elements(&self) -> (r: &Vec<BlockElement>)
        ensures
            r@ == self.spec_elements(),
    {
        &self.elements
    }

    /// The identifier of the block.
    pub fn block_id(&self) -> (r: Option<&str>)
        ensures
            match r {
                Some(s) => self.spec_block_id() == Some(s@),
                None => self.spec_block_id() is None,
            },
    {
        match &self.block_id {
            Some(s) => Some(s.as_str()),
            None => None,
        }
    }

    /// An actions block with no elements and no `block_id`.
    pub fn new() -> (r: Contents)
        ensures
            r.spec_elements().len() == 0,
            r.spec_block_id() is None,
    {
        Contents { elements: Vec::new(), block_id: None }
    }

    /// Sets `block_id`, which identifies the block in interaction payloads
    /// (at most 255 characters).
    pub fn with_block_id(self, block_id: &str) -> (r: Contents)
        ensures
            r.spec_elements() == self.spec_elements(),
            r.spec_block_id() == Some(block_id@),
    {
        Contents { block_id: Some(String::from_str(block_id)), ..self }
    }

    /// An actions block holding `elements`, narrowed in order; fails with the
    /// error of the first element that the block does not accept.
    pub fn from_elements(elements: Vec<block_elements::BlockElement>) -> (r: Result<Contents, UnsupportedElementError>)
        ensures
            match (r, narrow_all(elements@)) {
                (Ok(c), Ok(v)) => c.spec_elements() == v && c.spec_block_id() is None,
                (Err(e), Err(e2)) => e == e2,
                _ => false,
            },
    {
        let mut rest = elements;
        let mut narrowed: Vec<BlockElement> = Vec::new();
        while rest.len() > 0
            invariant
                narrow_all(elements@) == match narrow_all(rest@) {
                    Ok(v) => Ok(narrowed@ + v),
                    Err(e) => Err(e),
                },
            decreases rest@.len(),
        {
            let ghost before = rest@;
            let el = rest.remove(0);
            assert(rest@ =~= before.drop_first());
            match BlockElement::narrow(el) {
                Ok(x) => {
                    let ghost prev = narrowed@;
                    narrowed.push(x);
                    proof {
                        match narrow_all(rest@) {
                            Ok(v) => {
                                assert(prev + (seq![x] + v) =~= narrowed@ + v);
                            },
                            Err(_) => {},
                        }
                    }
                },
                Err(e) => {
                    return Err(e);
                },
            }
        }
        assert(narrowed@ + Seq::<BlockElement>::empty() =~= narrowed@);
        Ok(Contents::from_action_elements(narrowed))
    }

    /// An actions block holding `elements`, which it accepts by type.
    pub fn from_action_elements(elements: Vec<BlockElement>) -> (r: Contents)
        ensures
            r.spec_elements() == elements@,
            r.spec_block_id() is None,
    {
        Contents { elements, block_id: None }
    }

    /// Violations of the block at `path`: at most 5 elements, each valid;
    /// `block_id` at most 255 characters.
    pub open spec fn violations_at(&self, path: Seq<PathSegment>) -> Seq<Fault> {
        fault_at(path, Field::Elements, spec_bounded_count(self.spec_elements().len(), 5))
            + elements_at(path, self.spec_elements())
            + match self.spec_block_id() {
                Some(id) => fault_at(path, Field::BlockId, spec_max_length(id, 255)),
                None => Seq::empty(),
            }
    }

    pub open spec fn violations(&self) -> Seq<Fault> {
        self.violations_at(Seq::empty())
    }

    /// Appends the violations of this block, at `path`, to `out`.
    pub fn check(&self, path: &Vec<PathSegment>, out: &mut Vec<Violation>)
        ensures
            faults_of(final(out)@) == faults_of(old(out)@) + self.violations_at(path@),
    {
        let ghost start = faults_of(out@);
        record(out, path, Field::Elements, bounded_count(self.elements.len(), 5));
        let ghost base = faults_of(out@);
        let mut i: usize = 0;
        assert(faults_of(out@) =~= base + elements_at(path@, self.elements@.take(0)));
        while i < self.elements.len()
            invariant
                i <= self.elements@.len(),
                faults_of(out@) == base + elements_at(path@, self.elements@.take(i as int)),
            decreases self.elements@.len() - i,
        {
            let p = index_path(path, Field::Elements, i);
            self.elements[i].check(&p, out);
            proof {
                let next = self.elements@.take(i + 1);
                assert(next.drop_last() =~= self.elements@.take(i as int));
                assert(next.last() == self.elements@[i as int]);
            }
            i = i + 1;
            assert(faults_of(out@) =~= base + elements_at(path@, self.elements@.take(i as int)));
        }
        assert(self.elements@.take(self.elements@.len() as int) =~= self.elements@);
        match &self.block_id {
            Some(id) => record(out, path, Field::BlockId, max_length(id.as_str(), 255)),
            None => {},
        }
        assert(faults_of(out@) =~= start + self.violations_at(path@));
    }

    /// Validates this block and its elements, reporting every violation.
    pub fn validate(&self) -> (r: Result<(), Report>)
        ensures
            outcome(self.violations(), r),
    {
        let mut out: Vec<Violation> = Vec::new();
        self.check(&Vec::new(), &mut out);
        assert(faults_of(Seq::<Violation>::empty()) =~= Seq::<Fault>::empty());
        assert(self.violations() =~= Seq::<Fault>::empty() + self.violations());
        conclude(out)
    }
}

} // verus!
