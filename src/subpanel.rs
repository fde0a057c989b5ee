//! The three sub-panels that the controller owns. Each holds the data pushed
//! into it and the position of its cursor; how they are laid out on screen is
//! up to the renderer.
use vstd::prelude::*;
use crate::domain::{Actor, MoveEntry};

verus! {

/// The top-level action choice (fight, bag, switch, run).
pub struct BattleOptions {
    /// Name of the Pokémon the question is asked for.
    pub actor: String,
    pub cursor: usize,
}

impl BattleOptions {
    pub fn new() -> (r: BattleOptions)
        ensures
            r.actor@ == Seq::<char>::empty(),
            r.cursor == 0,
    {
        BattleOptions { actor: String::new(), cursor: 0 }
    }

    /// Shows the options for `actor`.
    pub fn setup(&mut self, actor: &Actor)
        ensures
            final(self).actor@ == actor.name@,
            final(self).cursor == old(self).cursor,
    {
        self.actor = actor.name.clone();
    }
}

/// The list of the acting Pokémon's moves.
pub struct FightPanel {
    pub moves: Vec<MoveEntry>,
    pub cursor: usize,
}

/// Copies a list of moves entry by entry.
fn copy_moves(src: &Vec<MoveEntry>) -> (r: Vec<MoveEntry>)
    ensures
        r@ == src@,
{
    let mut r: Vec<MoveEntry> = Vec::new();
    let mut i: usize = 0;
    while i < src.len()
        invariant
            i <= src@.len(),
            r@ == src@.subrange(0, i as int),
        decreases src@.len() - i,
    {
        r.push(src[i]);
        i = i + 1;
    }
    assert(r@ =~= src@);
    r
}

impl FightPanel {
    pub fn new() -> (r: FightPanel)
        ensures
            r.moves@ == Seq::<MoveEntry>::empty(),
            r.cursor == 0,
    {
        FightPanel { moves: Vec::new(), cursor: 0 }
    }

    /// Shows the moves of `actor`.
    pub fn user(&mut self, actor: &Actor)
        ensures
            final(self).moves@ == actor.moves@,
            final(self).cursor == old(self).cursor,
    {
        self.moves = copy_moves(&actor.moves);
    }

    /// Puts the panel back to its first entry.
    pub fn reset(&mut self)
        ensures
            final(self).moves@ == old(self).moves@,
            final(self).cursor == 0,
    {
        self.cursor = 0;
    }
}

/// The list of Pokémon a move or item may be aimed at.
pub struct TargetPanel {
    /// Display names of the potential targets.
    pub names: Vec<String>,
    pub cursor: usize,
}

impl TargetPanel {
    pub fn new() -> (r: TargetPanel)
        ensures
            r.names@ == Seq::<String>::empty(),
            r.cursor == 0,
    {
        TargetPanel { names: Vec::new(), cursor: 0 }
    }

    /// Replaces the shown names by `names`, in the same order.
    pub fn update_names(&mut self, names: &Vec<String>)
        ensures
            final(self).names@ == names@,
            final(self).cursor == old(self).cursor,
    {
        let mut copy: Vec<String> = Vec::new();
        let mut i: usize = 0;
        while i < names.len()
            invariant
                i <= names@.len(),
                copy@ == names@.subrange(0, i as int),
            decreases names@.len() - i,
        {
            copy.push(names[i].clone());
            i = i + 1;
        }
        assert(copy@ =~= names@);
        self.names = copy;
    }
}

} // verus!
