use slack_blocks::blocks::{actions, context, Block};
use slack_blocks::compose::{Confirm, Opt, Text};
use slack_blocks::validation::{ConstraintKind, Field, PathSegment};
use slack_blocks::elems::checkboxes::builder::CheckboxesBuilder;
use slack_blocks::elems::select::multi;
use slack_blocks::elems::Checkboxes;

fn opt(label: &str) -> Opt {
    Opt::from_text_and_value(Text::plain(label), label)
}

#[test]
fn required_setters_in_either_order() {
    let a = Checkboxes::builder().action_id("id").options(vec![opt("x")]).build();
    let b = Checkboxes::builder().options(vec![opt("x")]).action_id("id").build();
    assert_eq!(a, b);
    assert_eq!(a.action_id(), "id");
    assert_eq!(a.options(), &vec![opt("x")]);

    let c = CheckboxesBuilder::new().option(opt("x")).action_id("id").build();
    assert_eq!(a, c);

    let u1 = multi::User::builder().placeholder("p").action_id("a").build();
    let u2 = multi::User::builder().action_id("a").placeholder("p").build();
    assert_eq!(u1, u2);

    let c1 = multi::Conversation::builder().placeholder("p").action_id("a").build();
    let c2 = multi::Conversation::builder().action_id("a").placeholder("p").build();
    assert_eq!(c1, c2);
}

#[test]
fn appending_three_options_keeps_their_order() {
    let boxes = Checkboxes::builder()
        .option(opt("one"))
        .option(opt("two"))
        .option(opt("three"))
        .action_id("count")
        .build();
    assert_eq!(boxes.options(), &vec![opt("one"), opt("two"), opt("three")]);
}

#[test]
fn appending_after_bulk_set_extends_the_collection() {
    let boxes = Checkboxes::builder()
        .options(vec![opt("a"), opt("b")])
        .child(opt("c"))
        .action_id("x")
        .build();
    assert_eq!(boxes.options(), &vec![opt("a"), opt("b"), opt("c")]);
}

#[test]
fn setting_twice_keeps_the_last_value() {
    let boxes = Checkboxes::builder()
        .action_id("first")
        .options(vec![opt("a")])
        .action_id("second")
        .options(vec![opt("b")])
        .build();
    assert_eq!(boxes.action_id(), "second");
    assert_eq!(boxes.options(), &vec![opt("b")]);
}

#[test]
fn text_objects() {
    let plain = Text::plain("hi");
    assert_eq!(plain, Text::Plain { text: String::from("hi"), emoji: None });
    assert_eq!(plain.text(), "hi");
    let md = Text::markdown("*hi*");
    assert_eq!(md, Text::Markdown { text: String::from("*hi*"), verbatim: None });
    assert_eq!(md.text(), "*hi*");
    assert_eq!(Text::default(), Text::Markdown { text: String::new(), verbatim: None });
}

#[test]
fn block_names() {
    assert_eq!(Block::Divider.name(), "Divider");
    assert_eq!(Block::Section { text: Text::plain("x") }.name(), "Section");
    assert_eq!(Block::File.name(), "File");
}

#[test]
fn block_from_contents() {
    let b: Block = actions::Contents::new().with_block_id("a").into();
    assert_eq!(b.name(), "Actions");
    let c = Block::from(context::Contents::new());
    assert_eq!(c, Block::Context(context::Contents::new()));
}

#[test]
fn confirm_from_texts_checks_plainness() {
    let dialog = Confirm::from_texts(Text::markdown("*Sure?*"), Text::plain("b"), Text::plain("Yes"), Text::plain("No"));
    let boxes = Checkboxes::builder().action_id("x").option(opt("a")).confirm(dialog).build();
    let report = boxes.validate().unwrap_err();
    assert_eq!(report.len(), 1);
    assert_eq!(
        report.violations()[0].path,
        vec![PathSegment::Field(Field::Confirm), PathSegment::Field(Field::Title)]
    );
    assert_eq!(report.violations()[0].kind, ConstraintKind::TextIsPlain);
}

#[test]
fn every_order_of_setters_builds_the_same_group() {
    let dialog = Confirm::from_parts("Sure?", Text::plain("Really?"), "Yes", "No");
    let expected = Checkboxes::builder().action_id("id").options(vec![opt("x"), opt("y")]).initial_options(vec![opt("y")]).confirm(dialog.clone()).build();
    assert_eq!(expected.initial_options(), Some(&vec![opt("y")]));
    assert_eq!(expected.confirm(), Some(&dialog));
    let built = vec![
        Checkboxes::builder().action_id("id").options(vec![opt("x"), opt("y")]).initial_options(vec![opt("y")]).confirm(dialog.clone()).build(),
        Checkboxes::builder().action_id("id").options(vec![opt("x"), opt("y")]).confirm(dialog.clone()).initial_options(vec![opt("y")]).build(),
        Checkboxes::builder().action_id("id").initial_options(vec![opt("y")]).options(vec![opt("x"), opt("y")]).confirm(dialog.clone()).build(),
        Checkboxes::builder().action_id("id").initial_options(vec![opt("y")]).confirm(dialog.clone()).options(vec![opt("x"), opt("y")]).build(),
        Checkboxes::builder().action_id("id").confirm(dialog.clone()).options(vec![opt("x"), opt("y")]).initial_options(vec![opt("y")]).build(),
        Checkboxes::builder().action_id("id").confirm(dialog.clone()).initial_options(vec![opt("y")]).options(vec![opt("x"), opt("y")]).build(),
        Checkboxes::builder().options(vec![opt("x"), opt("y")]).action_id("id").initial_options(vec![opt("y")]).confirm(dialog.clone()).build(),
        Checkboxes::builder().options(vec![opt("x"), opt("y")]).action_id("id").confirm(dialog.clone()).initial_options(vec![opt("y")]).build(),
        Checkboxes::builder().options(vec![opt("x"), opt("y")]).initial_options(vec![opt("y")]).action_id("id").confirm(dialog.clone()).build(),
        Checkboxes::builder().options(vec![opt("x"), opt("y")]).initial_options(vec![opt("y")]).confirm(dialog.clone()).action_id("id").build(),
        Checkboxes::builder().options(vec![opt("x"), opt("y")]).confirm(dialog.clone()).action_id("id").initial_options(vec![opt("y")]).build(),
        Checkboxes::builder().options(vec![opt("x"), opt("y")]).confirm(dialog.clone()).initial_options(vec![opt("y")]).action_id("id").build(),
        Checkboxes::builder().initial_options(vec![opt("y")]).action_id("id").options(vec![opt("x"), opt("y")]).confirm(dialog.clone()).build(),
        Checkboxes::builder().initial_options(vec![opt("y")]).action_id("id").confirm(dialog.clone()).options(vec![opt("x"), opt("y")]).build(),
        Checkboxes::builder().initial_options(vec![opt("y")]).options(vec![opt("x"), opt("y")]).action_id("id").confirm(dialog.clone()).build(),
        Checkboxes::builder().initial_options(vec![opt("y")]).options(vec![opt("x"), opt("y")]).confirm(dialog.clone()).action_id("id").build(),
        Checkboxes::builder().initial_options(vec![opt("y")]).confirm(dialog.clone()).action_id("id").options(vec![opt("x"), opt("y")]).build(),
        Checkboxes::builder().initial_options(vec![opt("y")]).confirm(dialog.clone()).options(vec![opt("x"), opt("y")]).action_id("id").build(),
        Checkboxes::builder().confirm(dialog.clone()).action_id("id").options(vec![opt("x"), opt("y")]).initial_options(vec![opt("y")]).build(),
        Checkboxes::builder().confirm(dialog.clone()).action_id("id").initial_options(vec![opt("y")]).options(vec![opt("x"), opt("y")]).build(),
        Checkboxes::builder().confirm(dialog.clone()).options(vec![opt("x"), opt("y")]).action_id("id").initial_options(vec![opt("y")]).build(),
        Checkboxes::builder().confirm(dialog.clone()).options(vec![opt("x"), opt("y")]).initial_options(vec![opt("y")]).action_id("id").build(),
        Checkboxes::builder().confirm(dialog.clone()).initial_options(vec![opt("y")]).action_id("id").options(vec![opt("x"), opt("y")]).build(),
        Checkboxes::builder().confirm(dialog.clone()).initial_options(vec![opt("y")]).options(vec![opt("x"), opt("y")]).action_id("id").build(),
    ];
    assert_eq!(built.len(), 24);
    for b in built {
        assert_eq!(b, expected);
    }
}
