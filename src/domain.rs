//! Plain data that the controller consumes: move targets, item references,
//! the acting Pokémon and one frame's input.
use vstd::prelude::*;

verus! {

/// Which Pokémon a move (or an item used like one) may be aimed at.
#[derive(Clone, Copy, Debug, PartialEq, Eq, Structural)]
pub enum MoveTarget {
    /// The user itself.
    User,
    /// One chosen Pokémon other than the user.
    Single,
    /// One ally of the user.
    Ally,
    /// Every opponent at once.
    AllOpponents,
    /// Every Pokémon on the field but the user.
    AllOthers,
    /// Every Pokémon on the field.
    All,
}

/// A reference to an item, by its identifier in the item table.
#[derive(Clone, Copy, Debug, PartialEq, Eq, Structural)]
pub struct ItemRef {
    pub id: u32,
}

/// One move known by the acting Pokémon.
#[derive(Clone, Copy, Debug, PartialEq, Eq, Structural)]
pub struct MoveEntry {
    /// Identifier of the move in the move table.
    pub id: u32,
    /// What the move may be aimed at.
    pub target: MoveTarget,
    /// Power points left.
    pub pp: u8,
}

/// The Pokémon whose action is being chosen, as far as the panels show it.
pub struct Actor {
    pub name: String,
    pub moves: Vec<MoveEntry>,
}

/// The pressed edges of one frame: whether Confirm and Cancel went down.
#[derive(Clone, Copy, Debug, PartialEq, Eq, Structural)]
pub struct FrameInput {
    pub confirm: bool,
    pub cancel: bool,
}

impl FrameInput {
    /// A frame in which nothing was pressed.
    pub fn idle() -> (r: FrameInput)
        ensures
            !r.confirm,
            !r.cancel,
    {
        FrameInput { confirm: false, cancel: false }
    }

    /// A frame in which exactly the given presses happened.
    pub fn new(confirm: bool, cancel: bool) -> (r: FrameInput)
        ensures
            r.confirm == confirm,
            r.cancel == cancel,
    {
        FrameInput { confirm, cancel }
    }
}

} // verus!
