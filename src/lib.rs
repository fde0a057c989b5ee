//! A menu-navigation state machine for a turn-based battle interface.
//!
//! The controller in [`panel`] owns three sub-panels (top-level options, move
//! selection and target selection), tracks which one is active, routes each
//! frame's input to it, and reports a completed selection to its caller.
//! [`laws`] proves how it behaves over sequences of frames.
pub mod domain;
pub mod laws;
pub mod panel;
pub mod subpanel;

pub use domain::{Actor, FrameInput, ItemRef, MoveEntry, MoveTarget};
pub use panel::{BattlePanel, BattlePanels, PanelKind};
pub use subpanel::{BattleOptions, FightPanel, TargetPanel};
