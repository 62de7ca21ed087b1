//! Composition objects: text objects, options, confirmation dialogs, and the
//! general family of composition objects.
use vstd::prelude::*;

pub mod validation;

use crate::validation::{
    fault_at, faults_of, index_path, max_length, record, spec_max_length, Fault, Field,
    PathSegment, Violation,
};
use self::validation::{check_plain_text, plain_text_at, spec_text_max_len, text_max_len};

verus! {

/// A text object, formatted either as plain text or as markdown.
#[derive(Clone, Debug, PartialEq, Eq, Hash)]
pub enum Text {
    /// Markdown text; `verbatim` turns off link and mention preprocessing.
    Markdown { text: String, verbatim: Option<bool> },
    /// Plain text; `emoji` asks for emoji to be escaped into colon form.
    Plain { text: String, emoji: Option<bool> },
}

impl Text {
    /// The characters of the text, whatever its format.
    pub open spec fn spec_text(&self) -> Seq<char> {
        match self {
            Text::Markdown { text, .. } => text@,
            Text::Plain { text, .. } => text@,
        }
    }

    pub open spec fn is_plain(&self) -> bool {
        self is Plain
    }

    /// The optional flag of the text: `verbatim` or `emoji`.
    pub open spec fn flag(&self) -> Option<bool> {
        match self {
            Text::Markdown { verbatim, .. } => *verbatim,
            Text::Plain { emoji, .. } => *emoji,
        }
    }

    /// A plain text object holding `text`, with no emoji flag.
    pub fn plain(text: &str) -> (r: Text)
        ensures
            r.is_plain(),
            r.spec_text() == text@,
            r.flag() is None,
    {
        Text::Plain { text: String::from_str(text), emoji: None }
    }

    /// A markdown text object holding `text`, with no verbatim flag.
    pub fn markdown(text: &str) -> (r: Text)
        ensures
            !r.is_plain(),
            r.spec_text() == text@,
            r.flag() is None,
    {
        Text::Markdown { text: String::from_str(text), verbatim: None }
    }

    /// The characters of the text, whatever its format.
    pub fn text(&self) -> (r: &str)
        ensures
            r@ == self.spec_text(),
    {
        match self {
            Text::Plain { text, .. } => text.as_str(),
            Text::Markdown { text, .. } => text.as_str(),
        }
    }
}

impl Default for Text {
    /// Empty markdown text.
    fn default() -> (r: Text)
        ensures
            !r.is_plain(),
            r.spec_text().len() == 0,
            r.flag() is None,
    {
        Text::Markdown { text: String::new(), verbatim: None }
    }
}

/// An option of a menu or a checkbox group: a label and the value sent when
/// it is chosen.
#[derive(Clone, Debug, PartialEq, Eq, Hash)]
pub struct Opt {
    text: Text,
    value: String,
    description: Option<Text>,
}

impl Opt {
    pub closed spec fn spec_label(&self) -> Text {
        self.text
    }

    pub closed spec fn spec_value(&self) -> Seq<char> {
        self.value@
    }

    pub closed spec fn spec_description(&self) -> Option<Text> {
        self.description
    }

    /// The label shown for the option.
    pub fn label(&self) -> (r: &Text)
        ensures
            *r == self.spec_label(),
    {
        &self.text
    }

    /// The value sent when the option is chosen.
    pub fn value(&self) -> (r: &str)
        ensures
            r@ == self.spec_value(),
    {
        self.value.as_str()
    }

    /// The description shown under the label.
    pub fn description(&self) -> (r: Option<&Text>)
        ensures
            match r {
                Some(t) => self.spec_description() == Some(*t),
                None => self.spec_description() is None,
            },
    {
        self.description.as_ref()
    }

    /// An option showing `text` and sending `value`, without description.
    pub fn from_text_and_value(text: Text, value: &str) -> (r: Opt)
        ensures
            r.spec_label() == text,
            r.spec_value() == value@,
            r.spec_description() is None,
    {
        Opt { text, value: String::from_str(value), description: None }
    }

    /// Sets the description shown under the label.
    pub fn with_description(self, description: Text) -> (r: Opt)
        ensures
            r.spec_label() == self.spec_label(),
            r.spec_value() == self.spec_value(),
            r.spec_description() == Some(description),
    {
        Opt { description: Some(description), ..self }
    }

    /// Violations of an option at `path`: label, value and description each
    /// hold at most 75 characters.
    pub open spec fn violations_at(&self, path: Seq<PathSegment>) -> Seq<Fault> {
        fault_at(path, Field::Text, spec_text_max_len(self.spec_label(), 75))
            + fault_at(path, Field::Value, spec_max_length(self.spec_value(), 75))
            + match self.spec_description() {
                Some(d) => fault_at(path, Field::Description, spec_text_max_len(d, 75)),
                None => Seq::empty(),
            }
    }

    /// Appends the violations of this option, at `path`, to `out`.
    pub fn check(&self, path: &Vec<PathSegment>, out: &mut Vec<Violation>)
        ensures
            faults_of(final(out)@) == faults_of(old(out)@) + self.violations_at(path@),
    {
        let ghost start = faults_of(out@);
        record(out, path, Field::Text, text_max_len(&self.text, 75));
        record(out, path, Field::Value, max_length(self.value.as_str(), 75));
        match &self.description {
            Some(d) => record(out, path, Field::Description, text_max_len(d, 75)),
            None => {},
        }
        assert(faults_of(out@) =~= start + self.violations_at(path@));
    }
}

/// Violations of the options `opts` of collection field `f` of the node at
/// `path`, each at its own index, in order.
pub open spec fn opts_at(path: Seq<PathSegment>, f: Field, opts: Seq<Opt>) -> Seq<Fault>
    decreases opts.len(),
{
    if opts.len() == 0 {
        Seq::empty()
    } else {
        opts_at(path, f, opts.drop_last()) + opts.last().violations_at(
            path.push(PathSegment::Field(f)).push(PathSegment::Index((opts.len() - 1) as usize)),
        )
    }
}

/// Appends the violations of each option of `opts`, the collection field
/// `f` of the node at `path`, to `out`.
pub fn check_opts(opts: &Vec<Opt>, path: &Vec<PathSegment>, f: Field, out: &mut Vec<Violation>)
    ensures
        faults_of(final(out)@) == faults_of(old(out)@) + opts_at(path@, f, opts@),
{
    let ghost start = faults_of(out@);
    let mut i: usize = 0;
    assert(faults_of(out@) =~= start + opts_at(path@, f, opts@.take(0)));
    while i < opts.len()
        invariant
            i <= opts@.len(),
            faults_of(out@) == start + opts_at(path@, f, opts@.take(i as int)),
        decreases opts@.len() - i,
    {
        let p = index_path(path, f, i);
        opts[i].check(&p, out);
        proof {
            let next = opts@.take(i + 1);
            assert(next.drop_last() =~= opts@.take(i as int));
            assert(next.last() == opts@[i as int]);
        }
        i = i + 1;
        assert(faults_of(out@) =~= start + opts_at(path@, f, opts@.take(i as int)));
    }
    assert(opts@.take(opts@.len() as int) =~= opts@);
}

/// A confirmation dialog shown before an action is carried out.
#[derive(Clone, Debug, PartialEq, Eq, Hash)]
pub struct Confirm {
    title: Text,
    text: Text,
    confirm: Text,
    deny: Text,
}

impl Confirm {
    pub closed spec fn spec_title(&self) -> Text {
        self.title
    }

    pub closed spec fn spec_text(&self) -> Text {
        self.text
    }

    pub closed spec fn spec_confirm(&self) -> Text {
        self.confirm
    }

    pub closed spec fn spec_deny(&self) -> Text {
        self.deny
    }

    /// The title of the dialog.
    pub fn title(&self) -> (r: &Text)
        ensures
            *r == self.spec_title(),
    {
        &self.title
    }

    /// The body of the dialog.
    pub fn text(&self) -> (r: &Text)
        ensures
            *r == self.spec_text(),
    {
        &self.text
    }

    /// The label of the button that confirms.
    pub fn confirm(&self) -> (r: &Text)
        ensures
            *r == self.spec_confirm(),
    {
        &self.confirm
    }

    /// The label of the button that cancels.
    pub fn deny(&self) -> (r: &Text)
        ensures
            *r == self.spec_deny(),
    {
        &self.deny
    }

    /// A dialog with a plain-text title and button labels, and body `text`.
    pub fn from_parts(title: &str, text: Text, confirm: &str, deny: &str) -> (r: Confirm)
        ensures
            r.spec_title().is_plain() && r.spec_title().spec_text() == title@,
            r.spec_text() == text,
            r.spec_confirm().is_plain() && r.spec_confirm().spec_text() == confirm@,
            r.spec_deny().is_plain() && r.spec_deny().spec_text() == deny@,
    {
        Confirm {
            title: Text::plain(title),
            text,
            confirm: Text::plain(confirm),
            deny: Text::plain(deny),
        }
    }

    /// A dialog from its four text objects, as they are.
    pub fn from_texts(title: Text, text: Text, confirm: Text, deny: Text) -> (r: Confirm)
        ensures
            r.spec_title() == title,
            r.spec_text() == text,
            r.spec_confirm() == confirm,
            r.spec_deny() == deny,
    {
        Confirm { title, text, confirm, deny }
    }

    /// Violations of a dialog at `path`: a plain title of at most 100
    /// characters, a body of at most 300, plain button labels of at most 30.
    pub open spec fn violations_at(&self, path: Seq<PathSegment>) -> Seq<Fault> {
        plain_text_at(path, Field::Title, self.spec_title(), 100)
            + fault_at(path, Field::Text, spec_text_max_len(self.spec_text(), 300))
            + plain_text_at(path, Field::Confirm, self.spec_confirm(), 30)
            + plain_text_at(path, Field::Deny, self.spec_deny(), 30)
    }

    /// Appends the violations of this dialog, at `path`, to `out`.
    pub fn check(&self, path: &Vec<PathSegment>, out: &mut Vec<Violation>)
        ensures
            faults_of(final(out)@) == faults_of(old(out)@) + self.violations_at(path@),
    {
        let ghost start = faults_of(out@);
        check_plain_text(&self.title, 100, path, Field::Title, out);
        record(out, path, Field::Text, text_max_len(&self.text, 300));
        check_plain_text(&self.confirm, 30, path, Field::Confirm, out);
        check_plain_text(&self.deny, 30, path, Field::Deny, out);
        assert(faults_of(out@) =~= start + self.violations_at(path@));
    }
}

/// The kinds of composition object, as tagged on the wire.
#[derive(Clone, Copy, Debug, PartialEq, Eq, Structural)]
pub enum ComposeKind {
    Text,
    Image,
    Opt,
    Confirm,
}

/// The general family of composition objects.
#[derive(Clone, Debug, PartialEq, Eq, Hash)]
pub enum Compose {
    Text(Text),
    Image,
    Opt(Opt),
    Confirm(Confirm),
}

impl Compose {
    pub open spec fn spec_kind(&self) -> ComposeKind {
        match self {
            Compose::Text(_) => ComposeKind::Text,
            Compose::Image => ComposeKind::Image,
            Compose::Opt(_) => ComposeKind::Opt,
            Compose::Confirm(_) => ComposeKind::Confirm,
        }
    }

    /// The kind of this composition object.
    pub fn kind(&self) -> (r: ComposeKind)
        ensures
            r == self.spec_kind(),
    {
        match self {
            Compose::Text(_) => ComposeKind::Text,
            Compose::Image => ComposeKind::Image,
            Compose::Opt(_) => ComposeKind::Opt,
            Compose::Confirm(_) => ComposeKind::Confirm,
        }
    }
}

} // verus!
