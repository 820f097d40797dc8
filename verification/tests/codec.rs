use ratbagtui::action::{ButtonAction, Payload};
use ratbagtui::text::decimal_string;

fn wrapped(inner: Payload) -> Payload {
    Payload::Wrapped(Box::new(inner))
}

#[test]
fn type_code_zero_is_no_action_whatever_the_payload() {
    assert_eq!(ButtonAction::from_mapping(0, &Payload::U32(7)), ButtonAction::NoAction);
    assert_eq!(ButtonAction::from_mapping(0, &Payload::Other), ButtonAction::NoAction);
    assert_eq!(ButtonAction::from_mapping(0, &wrapped(Payload::Other)), ButtonAction::NoAction);
}

#[test]
fn type_codes_one_to_three_carry_the_number() {
    assert_eq!(ButtonAction::from_mapping(1, &Payload::U32(3)), ButtonAction::Button(3));
    assert_eq!(ButtonAction::from_mapping(2, &Payload::U32(12)), ButtonAction::Special(12));
    assert_eq!(ButtonAction::from_mapping(3, &Payload::U32(30)), ButtonAction::Key(30));
    assert_eq!(
        ButtonAction::from_mapping(3, &Payload::U32(u32::MAX)),
        ButtonAction::Key(u32::MAX)
    );
}

#[test]
fn one_envelope_is_looked_through() {
    assert_eq!(ButtonAction::from_mapping(1, &wrapped(Payload::U32(3))), ButtonAction::Button(3));
    assert_eq!(ButtonAction::from_mapping(2, &wrapped(Payload::U32(9))), ButtonAction::Special(9));
    assert_eq!(ButtonAction::from_mapping(3, &wrapped(Payload::U32(1))), ButtonAction::Key(1));
}

#[test]
fn a_second_envelope_hides_the_number() {
    let twice = wrapped(wrapped(Payload::U32(3)));
    assert_eq!(ButtonAction::from_mapping(1, &twice), ButtonAction::Unknown);
    assert_eq!(ButtonAction::from_mapping(2, &twice), ButtonAction::Unknown);
    assert_eq!(ButtonAction::from_mapping(3, &twice), ButtonAction::Unknown);
}

#[test]
fn a_payload_without_a_number_is_unknown() {
    assert_eq!(ButtonAction::from_mapping(1, &Payload::Other), ButtonAction::Unknown);
    assert_eq!(ButtonAction::from_mapping(2, &wrapped(Payload::Other)), ButtonAction::Unknown);
    assert_eq!(ButtonAction::from_mapping(3, &Payload::Other), ButtonAction::Unknown);
}

#[test]
fn other_type_codes_are_unknown() {
    assert_eq!(ButtonAction::from_mapping(4, &Payload::U32(1)), ButtonAction::Unknown);
    assert_eq!(ButtonAction::from_mapping(99, &Payload::U32(1)), ButtonAction::Unknown);
    assert_eq!(ButtonAction::from_mapping(99, &Payload::Other), ButtonAction::Unknown);
    assert_eq!(ButtonAction::from_mapping(u32::MAX, &wrapped(Payload::U32(1))), ButtonAction::Unknown);
}

#[test]
fn an_extra_envelope_changes_nothing_for_plain_payloads() {
    for type_code in [0u32, 1, 2, 3, 4, 99] {
        for number in [0u32, 1, 8, 1600] {
            assert_eq!(
                ButtonAction::from_mapping(type_code, &wrapped(Payload::U32(number))),
                ButtonAction::from_mapping(type_code, &Payload::U32(number))
            );
        }
        assert_eq!(
            ButtonAction::from_mapping(type_code, &wrapped(Payload::Other)),
            ButtonAction::from_mapping(type_code, &Payload::Other)
        );
    }
}

#[test]
fn actions_are_written_by_kind_and_number() {
    assert_eq!(ButtonAction::NoAction.to_mapping(), Some((0, Payload::U32(0))));
    assert_eq!(ButtonAction::Button(5).to_mapping(), Some((1, Payload::U32(5))));
    assert_eq!(ButtonAction::Special(6).to_mapping(), Some((2, Payload::U32(6))));
    assert_eq!(ButtonAction::Key(7).to_mapping(), Some((3, Payload::U32(7))));
}

#[test]
fn unknown_has_no_written_form() {
    assert_eq!(ButtonAction::Unknown.to_mapping(), None);
}

#[test]
fn writing_what_was_read_gives_the_mapping_back() {
    for type_code in [1u32, 2, 3] {
        for number in [0u32, 1, 8, 9, 4242, u32::MAX] {
            let action = ButtonAction::from_mapping(type_code, &Payload::U32(number));
            assert_eq!(action.to_mapping(), Some((type_code, Payload::U32(number))));
        }
    }
}

#[test]
fn reading_what_was_written_gives_the_action_back() {
    let actions = [
        ButtonAction::NoAction,
        ButtonAction::Button(1),
        ButtonAction::Button(77),
        ButtonAction::Special(0),
        ButtonAction::Key(65),
    ];
    for action in actions {
        let (type_code, payload) = action.to_mapping().unwrap();
        assert_eq!(ButtonAction::from_mapping(type_code, &payload), action);
    }
}

#[test]
fn mouse_buttons_one_to_eight_have_names() {
    assert_eq!(ButtonAction::Button(1).label(), "Left Click");
    assert_eq!(ButtonAction::Button(2).label(), "Right Click");
    assert_eq!(ButtonAction::Button(3).label(), "Middle Click");
    assert_eq!(ButtonAction::Button(4).label(), "Back");
    assert_eq!(ButtonAction::Button(5).label(), "Forward");
    assert_eq!(ButtonAction::Button(6).label(), "Side Left");
    assert_eq!(ButtonAction::Button(7).label(), "Side Right");
    assert_eq!(ButtonAction::Button(8).label(), "Side Middle");
}

#[test]
fn other_actions_are_labelled_by_kind_and_number() {
    assert_eq!(ButtonAction::NoAction.label(), "None");
    assert_eq!(ButtonAction::Unknown.label(), "Unknown");
    assert_eq!(ButtonAction::Button(0).label(), "Button 0");
    assert_eq!(ButtonAction::Button(9).label(), "Button 9");
    assert_eq!(ButtonAction::Button(u32::MAX).label(), "Button 4294967295");
    assert_eq!(ButtonAction::Special(1).label(), "Special 1");
    assert_eq!(ButtonAction::Special(1234).label(), "Special 1234");
    assert_eq!(ButtonAction::Key(30).label(), "Key 30");
    assert_eq!(ButtonAction::Key(100).label(), "Key 100");
}

#[test]
fn an_undecodable_mapping_reads_as_unknown() {
    let action = ButtonAction::from_mapping(99, &Payload::Other);
    assert_eq!(action, ButtonAction::Unknown);
    assert_eq!(action.label(), "Unknown");
    assert_eq!(action.to_mapping(), None);
}

#[test]
fn payload_number_looks_through_one_envelope_only() {
    assert_eq!(Payload::U32(5).number(), Some(5));
    assert_eq!(wrapped(Payload::U32(5)).number(), Some(5));
    assert_eq!(wrapped(wrapped(Payload::U32(5))).number(), None);
    assert_eq!(Payload::Other.number(), None);
    assert_eq!(wrapped(Payload::Other).number(), None);
}

#[test]
fn a_resolution_is_read_through_one_envelope() {
    assert_eq!(Payload::U32(1600).to_dpi(), 1600);
    assert_eq!(wrapped(Payload::U32(800)).to_dpi(), 800);
    assert_eq!(wrapped(wrapped(Payload::U32(800))).to_dpi(), 0);
    assert_eq!(Payload::Other.to_dpi(), 0);
    assert_eq!(wrapped(Payload::Other).to_dpi(), 0);
}

#[test]
fn a_resolution_is_written_in_one_envelope() {
    assert_eq!(Payload::from_dpi(1600), wrapped(Payload::U32(1600)));
    assert_eq!(Payload::from_dpi(0), wrapped(Payload::U32(0)));
    for dpi in [0u32, 50, 800, 25600, u32::MAX] {
        assert_eq!(Payload::from_dpi(dpi).to_dpi(), dpi);
    }
}

#[test]
fn decimal_notation_of_numbers() {
    assert_eq!(decimal_string(0), "0");
    assert_eq!(decimal_string(7), "7");
    assert_eq!(decimal_string(10), "10");
    assert_eq!(decimal_string(1600), "1600");
    assert_eq!(decimal_string(90909), "90909");
    assert_eq!(decimal_string(4294967295), "4294967295");
    assert_eq!(decimal_string(u64::MAX), "18446744073709551615");
}

#[test]
fn decimal_notation_is_appended() {
    let mut text = String::from("x=");
    ratbagtui::text::push_decimal(&mut text, 42);
    assert_eq!(text, "x=42");
    ratbagtui::text::push_decimal(&mut text, 0);
    assert_eq!(text, "x=420");
}
