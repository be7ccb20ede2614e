use data_device::dnd_action::{default_action_chooser, DndAction};

fn set(bits: u32) -> DndAction {
    DndAction::from_bits_retain(bits)
}

#[test]
fn action_bits_match_the_protocol() {
    assert_eq!(DndAction::empty().bits(), 0);
    assert_eq!(DndAction::copy().bits(), 1);
    assert_eq!(DndAction::move_().bits(), 2);
    assert_eq!(DndAction::ask().bits(), 4);
    assert_eq!(set(13).bits(), 13);
}

#[test]
fn contains_is_inclusion_of_bits() {
    assert!(set(3).contains(DndAction::copy()));
    assert!(set(3).contains(DndAction::move_()));
    assert!(!set(3).contains(DndAction::ask()));
    assert!(set(3).contains(set(3)));
    assert!(!set(1).contains(set(3)));
    assert!(set(0).contains(DndAction::empty()));
}

#[test]
fn preferred_action_is_chosen_when_available() {
    assert_eq!(default_action_chooser(set(7), DndAction::move_()), DndAction::move_());
    assert_eq!(default_action_chooser(set(7), DndAction::copy()), DndAction::copy());
    assert_eq!(default_action_chooser(set(3), DndAction::move_()), DndAction::move_());
    assert_eq!(default_action_chooser(set(4), DndAction::ask()), DndAction::ask());
}

#[test]
fn fallback_order_is_ask_copy_move() {
    // preferred not available
    assert_eq!(default_action_chooser(set(7), set(0)), DndAction::ask());
    assert_eq!(default_action_chooser(set(3), DndAction::ask()), DndAction::copy());
    assert_eq!(default_action_chooser(set(2), DndAction::copy()), DndAction::move_());
    assert_eq!(default_action_chooser(set(5), DndAction::move_()), DndAction::ask());
}

#[test]
fn several_preferred_actions_are_not_a_preference() {
    // copy|move is available but is not a single action
    assert_eq!(default_action_chooser(set(3), set(3)), DndAction::copy());
    assert_eq!(default_action_chooser(set(6), set(6)), DndAction::ask());
}

#[test]
fn nothing_available_chooses_nothing() {
    assert_eq!(default_action_chooser(set(0), DndAction::copy()), DndAction::empty());
    assert_eq!(default_action_chooser(set(8), set(8)), DndAction::empty());
    assert_eq!(default_action_chooser(set(0xfff8), DndAction::ask()), DndAction::empty());
}

#[test]
fn unknown_bits_do_not_hide_known_actions() {
    assert_eq!(default_action_chooser(set(0x12), DndAction::ask()), DndAction::move_());
    assert_eq!(default_action_chooser(set(0x11), set(0x11)), DndAction::copy());
}

#[test]
fn the_choice_is_stable() {
    for available in 0u32..16 {
        for preferred in 0u32..16 {
            let first = default_action_chooser(set(available), set(preferred));
            let again = default_action_chooser(set(available), first);
            assert_eq!(first, again);
            assert!(first.bits() == 0 || set(available).contains(first));
            assert_eq!(first.bits() == 0, available & 7 == 0);
        }
    }
}
