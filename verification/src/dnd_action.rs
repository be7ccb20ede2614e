use vstd::prelude::*;

verus! {

/// Bit of the "copy" action.
pub const DND_COPY: u32 = 1;

/// Bit of the "move" action.
pub const DND_MOVE: u32 = 2;

/// Bit of the "ask" action.
pub const DND_ASK: u32 = 4;

/// A set of drag'n'drop actions, held as the bits of the wire protocol
/// (`copy` = 1, `move` = 2, `ask` = 4). Like any set of protocol flags it may
/// also hold bits that no action names.
#[derive(Clone, Copy, Debug, PartialEq, Eq, Hash, Structural)]
pub struct DndAction {
    bits: u32,
}

impl View for DndAction {
    type V = u32;

    closed spec fn view(&self) -> u32 {
        self.bits
    }
}

/// `set` holds every bit of `flags`.
pub open spec fn has_flags(set: u32, flags: u32) -> bool {
    set & flags == flags
}

/// `action` names exactly one action: copy, move or ask.
pub open spec fn is_single_action(action: u32) -> bool {
    action == DND_COPY || action == DND_MOVE || action == DND_ASK
}

impl DndAction {
    /// The empty set of actions.
    pub fn empty() -> (r: DndAction)
        ensures
            r@ == 0,
    {
        DndAction { bits: 0 }
    }

    /// The set that holds only "copy".
    pub fn copy() -> (r: DndAction)
        ensures
            r@ == DND_COPY,
    {
        DndAction { bits: DND_COPY }
    }

    /// The set that holds only "move".
    pub fn move_() -> (r: DndAction)
        ensures
            r@ == DND_MOVE,
    {
        DndAction { bits: DND_MOVE }
    }

    /// The set that holds only "ask".
    pub fn ask() -> (r: DndAction)
        ensures
            r@ == DND_ASK,
    {
        DndAction { bits: DND_ASK }
    }

    /// The set whose bits are `bits`, unknown bits included.
    pub fn from_bits_retain(bits: u32) -> (r: DndAction)
        ensures
            r@ == bits,
    {
        DndAction { bits }
    }

    /// The bits of this set.
    pub fn bits(&self) -> (r: u32)
        ensures
            r == self@,
    {
        self.bits
    }

    /// Whether this set holds every action of `other`.
    pub fn contains(&self, other: DndAction) -> (r: bool)
        ensures
            r == has_flags(self@, other@),
        r == (self@ & other@ == other@),
    {
        self.bits & other.bits == other.bits
    }
}

/// The action that the default chooser picks: the preferred action when it is
/// a single action and is available, else the first available one in the
/// order ask, copy, move, else none.
pub open spec fn chosen_action(available: u32, preferred: u32) -> u32 {
    if is_single_action(preferred) && has_flags(available, preferred) {
        preferred
    } else if has_flags(available, DND_ASK) {
        DND_ASK
    } else if has_flags(available, DND_COPY) {
        DND_COPY
    } else if has_flags(available, DND_MOVE) {
        DND_MOVE
    } else {
        0
    }
}

/// A simple action chooser for drag'n'drop negotiation.
///
/// If the preferred action is available, it picks it. Otherwise, it picks the
/// first available in the following order: ask, copy, move.
pub fn default_action_chooser(available: DndAction, preferred: DndAction) -> (r: DndAction)
    ensures
        r@ == chosen_action(available@, preferred@),
        r@ == 0 || (is_single_action(r@) && has_flags(available@, r@)),
        (preferred@ == 1 || preferred@ == 2 || preferred@ == 4) && available@ & preferred@
            == preferred@ ==> r@ == preferred@,
        !((preferred@ == 1 || preferred@ == 2 || preferred@ == 4) && available@ & preferred@
            == preferred@) ==> r@ == (
        if available@ & 4 == 4 {
            4u32
        } else if available@ & 1 == 1 {
            1u32
        } else if available@ & 2 == 2 {
            2u32
        } else {
            0u32
        }),
{
    proof {
        lemma_choice_is_available(available@, preferred@);
    }
    if (preferred == DndAction::move_() || preferred == DndAction::copy() || preferred
        == DndAction::ask()) && available.contains(preferred) {
        preferred
    } else if available.contains(DndAction::ask()) {
        DndAction::ask()
    } else if available.contains(DndAction::copy()) {
        DndAction::copy()
    } else if available.contains(DndAction::move_()) {
        DndAction::move_()
    } else {
        DndAction::empty()
    }
}

/// The default chooser settles: offering the chosen action back as the
/// preference, with the same available actions, chooses it again.
pub proof fn lemma_choice_is_stable(available: u32, preferred: u32)
    ensures
        chosen_action(available, chosen_action(available, preferred)) == chosen_action(
            available,
            preferred,
        ),
{
}

/// The default chooser picks nothing exactly when none of copy, move and ask
/// is available; whatever it picks is a single available action.
pub proof fn lemma_choice_is_available(available: u32, preferred: u32)
    ensures
        chosen_action(available, preferred) == 0 <==> available & 7 == 0,
        chosen_action(available, preferred) != 0 ==> (chosen_action(available, preferred) == 1
            || chosen_action(available, preferred) == 2 || chosen_action(available, preferred) == 4)
            && available & chosen_action(available, preferred) == chosen_action(
            available,
            preferred,
        ),
{
    assert(available & 7 == 0 <==> !(available & 4 == 4 || available & 1 == 1 || available & 2
        == 2)) by (bit_vector);
}

/// A preferred action that is a single action and is available is the one
/// chosen, whatever else is available.
pub proof fn lemma_preference_wins(available: u32, preferred: u32)
    requires
        preferred == 1 || preferred == 2 || preferred == 4,
        available & preferred == preferred,
    ensures
        chosen_action(available, preferred) == preferred,
{
}

/// When the preference is not an available single action it plays no part:
/// the choice is ask if ask is available, else copy if copy is available,
/// else move if move is available, else nothing, whatever was preferred.
pub proof fn lemma_fallback_order(available: u32, preferred: u32, other: u32)
    requires
        !((preferred == 1 || preferred == 2 || preferred == 4) && available & preferred
            == preferred),
        !((other == 1 || other == 2 || other == 4) && available & other == other),
    ensures
        available & 4 == 4 ==> chosen_action(available, preferred) == 4,
        available & 4 != 4 && available & 1 == 1 ==> chosen_action(available, preferred) == 1,
        available & 4 != 4 && available & 1 != 1 && available & 2 == 2 ==> chosen_action(
            available,
            preferred,
        ) == 2,
        available & 7 == 0 ==> chosen_action(available, preferred) == 0,
        chosen_action(available, preferred) == chosen_action(available, other),
        chosen_action(available, preferred) == chosen_action(available, 0),
{
    assert(available & 7 == 0 ==> available & 4 != 4 && available & 1 != 1 && available & 2 != 2)
        by (bit_vector);
    assert(!(is_single_action(0u32) && available & 0 == 0));
}

} // verus!
