use slack_blocks::block_elements::select::{self, Select};
use slack_blocks::block_elements::Button;
use slack_blocks::blocks::actions;
use slack_blocks::blocks::context;
use slack_blocks::blocks::input::{self, text_max_len_2k, InputElement};
use slack_blocks::blocks::Block;
use slack_blocks::compose::validation::{text_is_plain, text_max_len};
use slack_blocks::compose::{Confirm, Opt, Text};
use slack_blocks::elems::select::multi;
use slack_blocks::elems::Checkboxes;
use slack_blocks::validation::{
    bounded_count, max_length, min_value, ConstraintKind, Field, PathSegment,
};

fn string_of_len(len: usize) -> String {
    std::iter::repeat('a').take(len).collect::<String>()
}

fn input_block(label: &str) -> input::Contents {
    input::Contents::from_label_and_element(
        Text::plain(label),
        InputElement::from_select(select::Contents::Static(select::Static {})),
    )
}

#[test]
fn max_length_counts_characters() {
    assert_eq!(max_length("abc", 3), Ok(()));
    assert_eq!(max_length("abcd", 3), Err(ConstraintKind::MaxLength { max: 3, len: 4 }));
    // two bytes each, one character each
    assert_eq!(max_length("ééé", 3), Ok(()));
    assert_eq!(max_length("", 0), Ok(()));
}

#[test]
fn bounded_count_and_min_value() {
    assert_eq!(bounded_count(5, 5), Ok(()));
    assert_eq!(bounded_count(6, 5), Err(ConstraintKind::BoundedCount { max: 5, count: 6 }));
    assert_eq!(min_value(1, 1), Ok(()));
    assert_eq!(min_value(0, 1), Err(ConstraintKind::MinValue { min: 1, value: 0 }));
}

#[test]
fn text_constraints() {
    assert_eq!(text_is_plain(&Text::plain("x")), Ok(()));
    assert_eq!(text_is_plain(&Text::markdown("*x*")), Err(ConstraintKind::TextIsPlain));
    assert_eq!(text_max_len(&Text::markdown("hello"), 5), Ok(()));
    assert_eq!(text_max_len(&Text::markdown("hello"), 4), Err(ConstraintKind::MaxLength { max: 4, len: 5 }));
}

#[test]
fn text_of_2000_chars_is_valid_and_2001_is_not() {
    assert_eq!(text_max_len_2k(&Text::plain(&string_of_len(2000))), Ok(()));
    assert_eq!(
        text_max_len_2k(&Text::plain(&string_of_len(2001))),
        Err(ConstraintKind::MaxLength { max: 2000, len: 2001 })
    );
    assert_eq!(input_block(&string_of_len(2000)).validate(), Ok(()));
    let report = input_block(&string_of_len(2001)).validate().unwrap_err();
    assert_eq!(report.len(), 1);
    let v = &report.violations()[0];
    assert_eq!(v.path, vec![PathSegment::Field(Field::Label)]);
    assert_eq!(v.kind, ConstraintKind::MaxLength { max: 2000, len: 2001 });
}

#[test]
fn three_failing_fields_give_three_violations() {
    let block = input_block(&string_of_len(2001))
        .with_block_id(&string_of_len(256))
        .with_hint(Text::plain(&string_of_len(2001)))
        .with_optional(true);
    let report = block.validate().unwrap_err();
    assert_eq!(report.len(), 3);
    let vs = report.violations();
    assert_eq!(vs[0].path, vec![PathSegment::Field(Field::Label)]);
    assert_eq!(vs[0].kind, ConstraintKind::MaxLength { max: 2000, len: 2001 });
    assert_eq!(vs[1].path, vec![PathSegment::Field(Field::BlockId)]);
    assert_eq!(vs[1].kind, ConstraintKind::MaxLength { max: 255, len: 256 });
    assert_eq!(vs[2].path, vec![PathSegment::Field(Field::Hint)]);
    assert_eq!(vs[2].kind, ConstraintKind::MaxLength { max: 2000, len: 2001 });
}

#[test]
fn validating_twice_gives_the_same_report() {
    let block = Block::Input(
        input_block(&string_of_len(2500)).with_block_id(&string_of_len(300)),
    );
    let first = block.validate();
    let second = block.validate();
    assert!(first.is_err());
    assert_eq!(first, second);
    let ok = Block::Divider;
    assert_eq!(ok.validate(), ok.validate());
}

fn buttons(n: usize) -> Vec<actions::BlockElement> {
    (0..n)
        .map(|i| actions::BlockElement::Button(Button::from_text_and_action_id("Go", &format!("b{}", i))))
        .collect()
}

#[test]
fn six_elements_in_actions_block_exceed_the_bound() {
    let block = actions::Contents::from_action_elements(buttons(6));
    let report = block.validate().unwrap_err();
    assert_eq!(report.len(), 1);
    let v = &report.violations()[0];
    assert_eq!(v.path, vec![PathSegment::Field(Field::Elements)]);
    assert_eq!(v.kind, ConstraintKind::BoundedCount { max: 5, count: 6 });
    assert_eq!(v.kind.code(), "bounded_count");

    let block = actions::Contents::from_action_elements(buttons(5));
    assert_eq!(block.validate(), Ok(()));
}

#[test]
fn nested_violations_carry_root_relative_paths() {
    let good = Opt::from_text_and_value(Text::plain("ok"), "ok");
    let bad = Opt::from_text_and_value(Text::plain("ok"), &string_of_len(76));
    let dialog = Confirm::from_parts(&string_of_len(101), Text::plain("sure?"), "yes", "no");
    let boxes = Checkboxes::builder()
        .action_id("boxes")
        .options(vec![good, bad])
        .confirm(dialog)
        .build();
    let block = actions::Contents::from_action_elements(vec![
        actions::BlockElement::DatePicker,
        actions::BlockElement::Checkboxes(boxes),
    ]);
    let report = Block::Actions(block).validate().unwrap_err();
    let vs = report.violations();
    assert_eq!(vs.len(), 2);
    assert_eq!(
        vs[0].path,
        vec![
            PathSegment::Field(Field::Elements),
            PathSegment::Index(1),
            PathSegment::Field(Field::Options),
            PathSegment::Index(1),
            PathSegment::Field(Field::Value),
        ]
    );
    assert_eq!(vs[0].kind, ConstraintKind::MaxLength { max: 75, len: 76 });
    assert_eq!(
        vs[1].path,
        vec![
            PathSegment::Field(Field::Elements),
            PathSegment::Index(1),
            PathSegment::Field(Field::Confirm),
            PathSegment::Field(Field::Title),
        ]
    );
    assert_eq!(vs[1].kind, ConstraintKind::MaxLength { max: 100, len: 101 });
}

#[test]
fn checkboxes_with_too_many_options() {
    let opt = Opt::from_text_and_value(Text::markdown("foo"), "bar");
    let boxes = Checkboxes::builder()
        .action_id(&string_of_len(256))
        .options(vec![opt.clone(); 11])
        .initial_options(vec![opt; 11])
        .build();
    let report = boxes.validate().unwrap_err();
    let kinds: Vec<(Vec<PathSegment>, ConstraintKind)> =
        report.violations().iter().map(|v| (v.path.clone(), v.kind)).collect();
    assert_eq!(
        kinds,
        vec![
            (vec![PathSegment::Field(Field::ActionId)], ConstraintKind::MaxLength { max: 255, len: 256 }),
            (vec![PathSegment::Field(Field::Options)], ConstraintKind::BoundedCount { max: 10, count: 11 }),
            (vec![PathSegment::Field(Field::InitialOptions)], ConstraintKind::BoundedCount { max: 10, count: 11 }),
        ]
    );
}

#[test]
fn option_description_is_checked() {
    let opt = Opt::from_text_and_value(Text::plain("a"), "b")
        .with_description(Text::plain(&string_of_len(80)));
    let boxes = Checkboxes::builder().action_id("x").option(opt).build();
    let report = boxes.validate().unwrap_err();
    assert_eq!(
        report.violations()[0].path,
        vec![
            PathSegment::Field(Field::Options),
            PathSegment::Index(0),
            PathSegment::Field(Field::Description),
        ]
    );
}

#[test]
fn section_text_over_3000_fails() {
    let block = Block::Section { text: Text::markdown(&string_of_len(3001)) };
    let report = block.validate().unwrap_err();
    assert_eq!(report.violations()[0].path, vec![PathSegment::Field(Field::Text)]);
    assert_eq!(report.violations()[0].kind, ConstraintKind::MaxLength { max: 3000, len: 3001 });
    let block = Block::Section { text: Text::markdown(&string_of_len(3000)) };
    assert_eq!(block.validate(), Ok(()));
}

#[test]
fn context_block_limits() {
    let elements: Vec<context::Compose> =
        (0..11).map(|_| context::Compose::Text(Text::plain("t"))).collect();
    let block = context::Contents::from_context_elements(elements).with_block_id(&string_of_len(256));
    let report = block.validate().unwrap_err();
    assert_eq!(report.len(), 2);
    assert_eq!(report.violations()[0].kind, ConstraintKind::BoundedCount { max: 10, count: 11 });
    assert_eq!(report.violations()[1].kind, ConstraintKind::MaxLength { max: 255, len: 256 });
    assert_eq!(context::Contents::new().with_block_id("ok").validate(), Ok(()));
}

#[test]
fn multi_select_checks() {
    let user = multi::User::builder()
        .placeholder(&string_of_len(151))
        .action_id("pick")
        .max_selected_items(0)
        .build();
    let report = user.validate().unwrap_err();
    let vs = report.violations();
    assert_eq!(vs.len(), 2);
    assert_eq!(vs[0].path, vec![PathSegment::Field(Field::Placeholder)]);
    assert_eq!(vs[0].kind, ConstraintKind::MaxLength { max: 150, len: 151 });
    assert_eq!(vs[1].path, vec![PathSegment::Field(Field::MaxSelectedItems)]);
    assert_eq!(vs[1].kind, ConstraintKind::MinValue { min: 1, value: 0 });

    let conv = multi::Conversation::builder()
        .action_id("c")
        .placeholder("Pick a channel")
        .max_selected_items(3)
        .default_to_current_conversation(true)
        .build();
    assert_eq!(conv.validate(), Ok(()));
}

#[test]
fn public_channel_placeholder_must_be_plain() {
    let menu = Select::from_placeholder_and_action_id(Text::markdown("*pick*"), "abc")
        .choose_from_public_channels();
    let report = menu.validate().unwrap_err();
    assert_eq!(report.len(), 1);
    assert_eq!(report.violations()[0].path, vec![PathSegment::Field(Field::Placeholder)]);
    assert_eq!(report.violations()[0].kind, ConstraintKind::TextIsPlain);
    assert_eq!(report.violations()[0].message(), "text must be plain text, not markdown");
}

#[test]
fn button_limits() {
    assert_eq!(Button::from_text_and_action_id("Go", "go").validate(), Ok(()));
    let report = Button::from_text_and_action_id(&string_of_len(76), "go").validate().unwrap_err();
    assert_eq!(report.violations()[0].kind, ConstraintKind::MaxLength { max: 75, len: 76 });
}

#[test]
fn input_label_and_hint_must_be_plain() {
    let block = input::Contents::from_label_and_element(
        Text::markdown("label"),
        InputElement::from_select(select::Contents::Static(select::Static {})),
    )
    .with_hint(Text::markdown("hint"));
    let report = block.validate().unwrap_err();
    let vs = report.violations();
    assert_eq!(vs.len(), 2);
    assert_eq!(vs[0].path, vec![PathSegment::Field(Field::Label)]);
    assert_eq!(vs[0].kind, ConstraintKind::TextIsPlain);
    assert_eq!(vs[1].path, vec![PathSegment::Field(Field::Hint)]);
    assert_eq!(vs[1].kind, ConstraintKind::TextIsPlain);
}

#[test]
fn max_length_records_the_length_found() {
    assert_eq!(
        text_max_len(&Text::plain("héllo wörld"), 5),
        Err(ConstraintKind::MaxLength { max: 5, len: 11 })
    );
    assert_eq!(max_length("ééé", 2), Err(ConstraintKind::MaxLength { max: 2, len: 3 }));
}

#[test]
fn button_label_must_be_plain() {
    let report = Button::new(Text::markdown("*Go*"), "go").validate().unwrap_err();
    assert_eq!(report.len(), 1);
    assert_eq!(report.violations()[0].path, vec![PathSegment::Field(Field::Text)]);
    assert_eq!(report.violations()[0].kind, ConstraintKind::TextIsPlain);
}

#[test]
fn markdown_placeholder_is_kept_and_reported() {
    let user = multi::User::builder().placeholder_text(Text::markdown("*who*")).action_id("u").build();
    assert_eq!(user.placeholder(), &Text::markdown("*who*"));
    let report = user.validate().unwrap_err();
    assert_eq!(report.violations()[0].kind, ConstraintKind::TextIsPlain);
    let conv = multi::Conversation::builder().action_id("c").placeholder_text(Text::plain("where")).build();
    assert_eq!(conv.validate(), Ok(()));
}
