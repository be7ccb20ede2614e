use data_device::dnd_action::DndAction;
use data_device::handler::DataDeviceHandler;

struct Compositor;

impl DataDeviceHandler for Compositor {
    type SelectionUserData = ();
}

struct AlwaysMove;

impl DataDeviceHandler for AlwaysMove {
    type SelectionUserData = ();

    fn action_choice(&mut self, _available: DndAction, _preferred: DndAction) -> DndAction {
        DndAction::move_()
    }
}

#[test]
fn default_action_choice_uses_the_default_chooser() {
    let mut c = Compositor;
    let r = c.action_choice(DndAction::from_bits_retain(3), DndAction::ask());
    assert_eq!(r, DndAction::copy());
    let r = c.action_choice(DndAction::from_bits_retain(7), DndAction::move_());
    assert_eq!(r, DndAction::move_());
}

#[test]
fn handler_may_override_the_choice() {
    let mut c = AlwaysMove;
    assert_eq!(c.action_choice(DndAction::copy(), DndAction::copy()), DndAction::move_());
}

struct Counting {
    calls: u64,
}

impl DataDeviceHandler for Counting {
    type SelectionUserData = u64;
}

#[test]
fn default_action_choice_leaves_the_handler_unchanged() {
    let mut c = Counting { calls: 17 };
    let r = c.action_choice(DndAction::from_bits_retain(6), DndAction::copy());
    assert_eq!(r, DndAction::ask());
    assert_eq!(c.calls, 17);
}
