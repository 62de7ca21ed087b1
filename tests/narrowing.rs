use slack_blocks::block_elements::{self, select, Button, ElementKind};
use slack_blocks::blocks::actions::{self, UnsupportedElementError};
use slack_blocks::blocks::context::{self, UnsupportedComposeError};
use slack_blocks::compose::{self, ComposeKind, Confirm, Opt, Text};
use slack_blocks::elems::select::multi;
use slack_blocks::elems::Checkboxes;

fn action_elements() -> Vec<actions::BlockElement> {
    let boxes = Checkboxes::builder()
        .action_id("boxes")
        .option(Opt::from_text_and_value(Text::plain("a"), "a"))
        .build();
    let channel = select::Select::from_placeholder_and_action_id(Text::plain("Pick"), "ch")
        .choose_from_public_channels();
    vec![
        actions::BlockElement::Button(Button::from_text_and_action_id("Go", "go")),
        actions::BlockElement::Checkboxes(boxes),
        actions::BlockElement::DatePicker,
        actions::BlockElement::OverflowMenu,
        actions::BlockElement::PlainInput,
        actions::BlockElement::RadioButtons,
        actions::BlockElement::SelectPublicChannel(channel),
        actions::BlockElement::SelectConversation(select::Conversation {}),
    ]
}

#[test]
fn narrow_of_widen_is_identity_for_actions() {
    for x in action_elements() {
        let widened = x.clone().widen();
        assert_eq!(actions::BlockElement::narrow(widened), Ok(x));
    }
}

#[test]
fn narrow_of_widen_is_identity_for_context() {
    let xs = vec![context::Compose::Text(Text::markdown("*hi*")), context::Compose::Image];
    for x in xs {
        let widened = x.clone().widen();
        assert_eq!(context::Compose::narrow(widened), Ok(x));
    }
}

#[test]
fn foreign_elements_are_rejected_with_their_kind() {
    assert_eq!(
        actions::BlockElement::narrow(block_elements::BlockElement::Image),
        Err(UnsupportedElementError { kind: ElementKind::Image })
    );
    let user = multi::User::builder().placeholder("Who?").action_id("u").build();
    let el = block_elements::BlockElement::MultiSelectUser(user);
    assert_eq!(el.kind(), ElementKind::MultiSelectUser);
    assert_eq!(
        actions::BlockElement::narrow(el),
        Err(UnsupportedElementError { kind: ElementKind::MultiSelectUser })
    );
}

#[test]
fn foreign_compose_objects_are_rejected_with_their_kind() {
    let opt = compose::Compose::Opt(Opt::from_text_and_value(Text::plain("a"), "b"));
    assert_eq!(
        context::Compose::narrow(opt),
        Err(UnsupportedComposeError { kind: ComposeKind::Opt })
    );
    let dialog = Confirm::from_parts("Sure?", Text::plain("Really?"), "Yes", "No");
    assert_eq!(
        context::Compose::narrow(compose::Compose::Confirm(dialog)),
        Err(UnsupportedComposeError { kind: ComposeKind::Confirm })
    );
}

#[test]
fn actions_from_elements_keeps_order() {
    let general: Vec<block_elements::BlockElement> =
        action_elements().into_iter().map(|x| x.widen()).collect();
    let block = actions::Contents::from_elements(general).unwrap();
    assert_eq!(block.elements(), &action_elements());
}

#[test]
fn actions_from_elements_stops_at_first_foreign_element() {
    let user = multi::User::builder().placeholder("Who?").action_id("u").build();
    let general = vec![
        block_elements::BlockElement::DatePicker,
        block_elements::BlockElement::MultiSelectUser(user),
        block_elements::BlockElement::Image,
    ];
    assert_eq!(
        actions::Contents::from_elements(general),
        Err(UnsupportedElementError { kind: ElementKind::MultiSelectUser })
    );
}

#[test]
fn context_from_elements_and_with_element() {
    let general = vec![compose::Compose::Text(Text::plain("a")), compose::Compose::Image];
    let block = context::Contents::from_elements(general).unwrap();
    assert_eq!(
        block.elements(),
        &vec![context::Compose::Text(Text::plain("a")), context::Compose::Image]
    );
    let block = block.with_element(context::Compose::Text(Text::markdown("b")));
    assert_eq!(block.elements().len(), 3);
    assert_eq!(block.elements()[2], context::Compose::Text(Text::markdown("b")));

    let bad = vec![compose::Compose::Image, compose::Compose::Opt(Opt::from_text_and_value(Text::plain("a"), "b"))];
    assert_eq!(
        context::Contents::from_elements(bad),
        Err(UnsupportedComposeError { kind: ComposeKind::Opt })
    );
}
