//! The panel controller: which sub-panel is active, how a frame's input moves
//! between them, and what completed selection is reported to the caller.
use vstd::prelude::*;
use crate::domain::{Actor, FrameInput, ItemRef, MoveTarget};
use crate::subpanel::{BattleOptions, FightPanel, TargetPanel};

verus! {

/// The active sub-panel. `Target` carries the move-target kind and the item
/// (if any) chosen in the step before it.
#[derive(Clone, Copy, Debug, PartialEq, Eq, Structural)]
pub enum BattlePanels {
    Main,
    Fight,
    Target(MoveTarget, Option<ItemRef>),
}

impl Default for BattlePanels {
    fn default() -> (r: BattlePanels)
        ensures
            r == BattlePanels::Main,
    {
        BattlePanels::Main
    }
}

/// One of the three sub-panels, without the data a state carries.
#[derive(Clone, Copy, Debug, PartialEq, Eq, Structural)]
pub enum PanelKind {
    Main,
    Fight,
    Target,
}

/// The sub-panel that belongs to a state.
pub open spec fn kind_of(s: BattlePanels) -> PanelKind {
    match s {
        BattlePanels::Main => PanelKind::Main,
        BattlePanels::Fight => PanelKind::Fight,
        BattlePanels::Target(..) => PanelKind::Target,
    }
}

impl BattlePanels {
    /// The sub-panel that this state shows.
    pub fn kind(&self) -> (r: PanelKind)
        ensures
            r == kind_of(*self),
    {
        match self {
            BattlePanels::Main => PanelKind::Main,
            BattlePanels::Fight => PanelKind::Fight,
            BattlePanels::Target(..) => PanelKind::Target,
        }
    }
}

/// The state after Cancel has been looked at: one level up from Fight or
/// Target, unchanged otherwise.
pub open spec fn after_cancel(s: BattlePanels, f: FrameInput) -> BattlePanels {
    if !f.cancel {
        s
    } else {
        match s {
            BattlePanels::Main => BattlePanels::Main,
            BattlePanels::Fight => BattlePanels::Main,
            BattlePanels::Target(..) => BattlePanels::Fight,
        }
    }
}

/// The completed selection reported for one frame: the active state itself
/// when Confirm is pressed, unless Cancel, pressed in the same frame, leaves
/// Fight or Target. Cancel is a no-op in Main, so there Confirm always counts.
pub open spec fn signal(live: bool, s: BattlePanels, f: FrameInput) -> Option<BattlePanels> {
    if !live || !f.confirm || (f.cancel && !(s is Main)) {
        None
    } else {
        Some(s)
    }
}

/// The active state after one frame. Cancel pops one level; a Confirm from
/// Target without Cancel takes the state, which leaves the default, Main,
/// behind.
pub open spec fn next_active(live: bool, s: BattlePanels, f: FrameInput) -> BattlePanels {
    if !live {
        s
    } else if s is Target && f.confirm && !f.cancel {
        BattlePanels::Main
    } else {
        after_cancel(s, f)
    }
}

/// The sub-panel that receives one frame's input: the one active when the
/// frame began, also where Cancel leaves it in that frame.
pub open spec fn routed_to(live: bool, s: BattlePanels) -> Option<PanelKind> {
    if live {
        Some(kind_of(s))
    } else {
        None
    }
}

/// The sub-panel drawn: the active one while live, none while dormant.
pub open spec fn drawn(live: bool, s: BattlePanels) -> Option<PanelKind> {
    if live {
        Some(kind_of(s))
    } else {
        None
    }
}

/// The battle-menu controller.
pub struct BattlePanel {
    /// Whether input is processed and anything is drawn.
    pub alive: bool,
    /// The sub-panel that received the last frame's input, if any did.
    pub routed: Option<PanelKind>,
    pub active: BattlePanels,
    pub battle: BattleOptions,
    pub fight: FightPanel,
    pub targets: TargetPanel,
}

impl BattlePanel {
    /// A dormant controller whose state is Main.
    pub fn new() -> (r: BattlePanel)
        ensures
            !r.alive,
            r.routed is None,
            r.active == BattlePanels::Main,
            r.battle.actor@ == Seq::<char>::empty(),
            r.battle.cursor == 0,
            r.fight.moves@.len() == 0,
            r.fight.cursor == 0,
            r.targets.names@.len() == 0,
            r.targets.cursor == 0,
    {
        BattlePanel {
            alive: false,
            routed: None,
            active: BattlePanels::default(),
            battle: BattleOptions::new(),
            fight: FightPanel::new(),
            targets: TargetPanel::new(),
        }
    }

    /// Makes `actor` the subject of the next decision: pushes its data into
    /// the options and move panels, puts every cursor on its first entry, and
    /// goes live in state Main.
    pub fn user(&mut self, actor: &Actor)
        ensures
            final(self).alive,
            final(self).active == BattlePanels::Main,
            final(self).routed == old(self).routed,
            final(self).battle.actor@ == actor.name@,
            final(self).fight.moves@ == actor.moves@,
            final(self).targets.names@ == old(self).targets.names@,
            final(self).battle.cursor == 0,
            final(self).fight.cursor == 0,
            final(self).targets.cursor == 0,
    {
        self.battle.setup(actor);
        self.fight.user(actor);
        self.battle.cursor = 0;
        self.fight.cursor = 0;
        self.targets.cursor = 0;
        self.spawn();
    }

    /// Shows `names` as the potential targets. Leaves the state alone.
    pub fn target(&mut self, names: &Vec<String>)
        ensures
            final(self).targets.names@ == names@,
            final(self).targets.cursor == old(self).targets.cursor,
            final(self).alive == old(self).alive,
            final(self).active == old(self).active,
            final(self).routed == old(self).routed,
            final(self).battle == old(self).battle,
            final(self).fight == old(self).fight,
    {
        self.targets.update_names(names);
    }

    /// Handles one frame's input and returns the selection it completed, if
    /// any, recording which sub-panel the input went to. While dormant the
    /// state is kept, no sub-panel receives the input and nothing is returned.
    pub fn input(&mut self, frame: &FrameInput) -> (r: Option<BattlePanels>)
        ensures
            r == signal(old(self).alive, old(self).active, *frame),
            final(self).active == next_active(old(self).alive, old(self).active, *frame),
            final(self).routed == routed_to(old(self).alive, old(self).active),
            final(self).alive == old(self).alive,
            final(self).battle == old(self).battle,
            final(self).fight == old(self).fight,
            final(self).targets == old(self).targets,
    {
        if self.alive {
            match self.active {
                BattlePanels::Main => {
                    self.routed = Some(PanelKind::Main);
                    if frame.confirm {
                        Some(BattlePanels::Main)
                    } else {
                        None
                    }
                },
                BattlePanels::Fight => {
                    if frame.cancel {
                        self.active = BattlePanels::Main;
                    }
                    self.routed = Some(PanelKind::Fight);
                    if frame.confirm && !frame.cancel {
                        Some(BattlePanels::Fight)
                    } else {
                        None
                    }
                },
                BattlePanels::Target(..) => {
                    if frame.cancel {
                        self.active = BattlePanels::Fight;
                    }
                    self.routed = Some(PanelKind::Target);
                    if frame.confirm && !frame.cancel {
                        let mut taken = BattlePanels::default();
                        core::mem::swap(&mut self.active, &mut taken);
                        Some(taken)
                    } else {
                        None
                    }
                },
            }
        } else {
            self.routed = None;
            None
        }
    }

    /// The sub-panel to draw this frame: the active one while live, none
    /// while dormant.
    pub fn draw(&self) -> (r: Option<PanelKind>)
        ensures
            r == drawn(self.alive, self.active),
    {
        if self.alive {
            Some(self.active.kind())
        } else {
            None
        }
    }

    /// The sub-panel that received the last frame's input, if any did.
    pub fn routed(&self) -> (r: Option<PanelKind>)
        ensures
            r == self.routed,
    {
        self.routed
    }

    /// Goes live in state Main, with the move panel reset.
    pub fn spawn(&mut self)
        ensures
            final(self).alive,
            final(self).active == BattlePanels::Main,
            final(self).routed == old(self).routed,
            final(self).battle == old(self).battle,
            final(self).fight.moves@ == old(self).fight.moves@,
            final(self).fight.cursor == 0,
            final(self).targets == old(self).targets,
    {
        self.alive = true;
        self.active = BattlePanels::default();
        self.fight.reset();
    }

    /// Goes dormant. The state is kept.
    pub fn despawn(&mut self)
        ensures
            !final(self).alive,
            final(self).active == old(self).active,
            final(self).routed == old(self).routed,
            final(self).battle == old(self).battle,
            final(self).fight == old(self).fight,
            final(self).targets == old(self).targets,
    {
        self.alive = false;
    }

    /// Whether the controller takes input and draws.
    pub fn alive(&self) -> (r: bool)
        ensures
            r == self.alive,
    {
        self.alive
    }
}

} // verus!
