use vstd::prelude::*;

use crate::dnd_action::{chosen_action, default_action_chooser, DndAction};

verus! {

/// What a compositor decides in the data-device protocol.
pub trait DataDeviceHandler: Sized {
    /// User data attached to compositor-set selections.
    type SelectionUserData;

    /// Chooses the drag'n'drop action among the `available` ones, given the
    /// one the target `preferred`; by default, [`default_action_chooser`],
    /// which leaves the handler as it was.
    fn action_choice(&mut self, available: DndAction, preferred: DndAction) -> (r: DndAction)
        default_ensures
            r@ == chosen_action(available@, preferred@),
            *final(self) == *old(self),
    {
        default_action_chooser(available, preferred)
    }
}

} // verus!
