use battle_panel::{
    Actor, BattlePanel, BattlePanels, FrameInput, ItemRef, MoveEntry, MoveTarget, PanelKind,
};

fn confirm() -> FrameInput {
    FrameInput::new(true, false)
}

fn cancel() -> FrameInput {
    FrameInput::new(false, true)
}

fn actor(name: &str) -> Actor {
    Actor {
        name: name.to_string(),
        moves: vec![
            MoveEntry { id: 33, target: MoveTarget::Single, pp: 35 },
            MoveEntry { id: 45, target: MoveTarget::AllOpponents, pp: 40 },
        ],
    }
}

fn live_panel() -> BattlePanel {
    let mut p = BattlePanel::new();
    p.user(&actor("Bulbasaur"));
    p
}

#[test]
fn new_panel_is_dormant_in_main() {
    let p = BattlePanel::new();
    assert!(!p.alive());
    assert_eq!(p.active, BattlePanels::Main);
    assert_eq!(p.routed(), None);
    assert_eq!(p.draw(), None);
    assert_eq!(BattlePanels::default(), BattlePanels::Main);
}

#[test]
fn dormant_frames_do_nothing() {
    let mut p = BattlePanel::new();
    p.active = BattlePanels::Target(MoveTarget::Ally, Some(ItemRef { id: 4 }));
    let frames = [
        FrameInput::idle(),
        confirm(),
        cancel(),
        FrameInput::new(true, true),
        confirm(),
    ];
    for f in frames.iter() {
        assert_eq!(p.input(f), None);
        assert_eq!(p.routed(), None);
        assert_eq!(p.draw(), None);
        assert_eq!(p.active, BattlePanels::Target(MoveTarget::Ally, Some(ItemRef { id: 4 })));
    }
}

#[test]
fn despawn_makes_dormant_again() {
    let mut p = live_panel();
    p.active = BattlePanels::Fight;
    p.despawn();
    assert!(!p.alive());
    assert_eq!(p.input(&confirm()), None);
    assert_eq!(p.active, BattlePanels::Fight);
    assert_eq!(p.draw(), None);
}

#[test]
fn activation_goes_live_in_main() {
    let mut p = BattlePanel::new();
    p.active = BattlePanels::Target(MoveTarget::Single, None);
    p.battle.cursor = 3;
    p.fight.cursor = 2;
    p.targets.cursor = 1;
    let a = actor("Pikachu");
    p.user(&a);
    assert!(p.alive());
    assert_eq!(p.active, BattlePanels::Main);
    assert_eq!(p.battle.actor, "Pikachu");
    assert_eq!(p.fight.moves, a.moves);
    assert_eq!(p.battle.cursor, 0);
    assert_eq!(p.fight.cursor, 0);
    assert_eq!(p.targets.cursor, 0);
    assert_eq!(p.draw(), Some(PanelKind::Main));
}

#[test]
fn reactivation_resets_state() {
    let mut p = live_panel();
    p.active = BattlePanels::Fight;
    p.fight.cursor = 1;
    p.despawn();
    p.user(&actor("Eevee"));
    assert!(p.alive());
    assert_eq!(p.active, BattlePanels::Main);
    assert_eq!(p.fight.cursor, 0);
    assert_eq!(p.battle.actor, "Eevee");
}

#[test]
fn target_names_are_pushed_without_state_change() {
    let mut p = live_panel();
    p.active = BattlePanels::Fight;
    let names = vec!["Onix".to_string(), "Geodude".to_string()];
    p.target(&names);
    assert_eq!(p.targets.names, names);
    assert_eq!(p.active, BattlePanels::Fight);
    assert!(p.alive());
    p.target(&Vec::new());
    assert!(p.targets.names.is_empty());
}

#[test]
fn confirm_from_main_reports_main() {
    let mut p = live_panel();
    assert_eq!(p.input(&confirm()), Some(BattlePanels::Main));
    assert_eq!(p.active, BattlePanels::Main);
    assert_eq!(p.routed(), Some(PanelKind::Main));
}

#[test]
fn confirm_and_cancel_together_in_main() {
    let mut p = live_panel();
    assert_eq!(p.input(&FrameInput::new(true, true)), Some(BattlePanels::Main));
    assert_eq!(p.active, BattlePanels::Main);
}

#[test]
fn idle_and_cancel_in_main_change_nothing() {
    let mut p = live_panel();
    assert_eq!(p.input(&FrameInput::idle()), None);
    assert_eq!(p.active, BattlePanels::Main);
    assert_eq!(p.input(&cancel()), None);
    assert_eq!(p.active, BattlePanels::Main);
    assert_eq!(p.routed(), Some(PanelKind::Main));
}

#[test]
fn cancel_from_fight_goes_to_main() {
    let mut p = live_panel();
    p.active = BattlePanels::Fight;
    assert_eq!(p.input(&cancel()), None);
    assert_eq!(p.active, BattlePanels::Main);
    // The fight panel still receives the frame in which it was left.
    assert_eq!(p.routed(), Some(PanelKind::Fight));
    assert_eq!(p.draw(), Some(PanelKind::Main));
}

#[test]
fn confirm_from_fight_reports_fight() {
    let mut p = live_panel();
    p.active = BattlePanels::Fight;
    assert_eq!(p.input(&confirm()), Some(BattlePanels::Fight));
    assert_eq!(p.active, BattlePanels::Fight);
    assert_eq!(p.routed(), Some(PanelKind::Fight));
}

#[test]
fn confirm_and_cancel_together_in_fight() {
    let mut p = live_panel();
    p.active = BattlePanels::Fight;
    assert_eq!(p.input(&FrameInput::new(true, true)), None);
    assert_eq!(p.active, BattlePanels::Main);
    assert_eq!(p.routed(), Some(PanelKind::Fight));
}

#[test]
fn cancel_from_target_goes_to_fight() {
    let mut p = live_panel();
    p.active = BattlePanels::Target(MoveTarget::Single, None);
    assert_eq!(p.input(&cancel()), None);
    assert_eq!(p.active, BattlePanels::Fight);
    assert_eq!(p.routed(), Some(PanelKind::Target));
    // Confirm from Fight reports Fight; Target is entered only by the caller.
    assert_eq!(p.input(&confirm()), Some(BattlePanels::Fight));
    assert_eq!(p.active, BattlePanels::Fight);
}

#[test]
fn idle_frame_in_target_keeps_selection() {
    let mut p = live_panel();
    let t = BattlePanels::Target(MoveTarget::AllOthers, Some(ItemRef { id: 17 }));
    p.active = t;
    assert_eq!(p.input(&FrameInput::idle()), None);
    assert_eq!(p.active, t);
    assert_eq!(p.draw(), Some(PanelKind::Target));
}

#[test]
fn confirm_from_target_is_delivered_once() {
    let mut p = live_panel();
    let t = BattlePanels::Target(MoveTarget::User, Some(ItemRef { id: 9 }));
    p.active = t;
    assert_eq!(p.input(&confirm()), Some(t));
    assert_eq!(p.active, BattlePanels::Main);
    // A second Confirm is a Main press, not the target selection again.
    assert_eq!(p.input(&confirm()), Some(BattlePanels::Main));
    assert_eq!(p.active, BattlePanels::Main);
}

#[test]
fn confirm_and_cancel_together_in_target() {
    let mut p = live_panel();
    p.active = BattlePanels::Target(MoveTarget::Single, None);
    assert_eq!(p.input(&FrameInput::new(true, true)), None);
    assert_eq!(p.active, BattlePanels::Fight);
    assert_eq!(p.routed(), Some(PanelKind::Target));
}

#[test]
fn kind_of_each_state() {
    assert_eq!(BattlePanels::Main.kind(), PanelKind::Main);
    assert_eq!(BattlePanels::Fight.kind(), PanelKind::Fight);
    assert_eq!(BattlePanels::Target(MoveTarget::All, None).kind(), PanelKind::Target);
}

#[test]
fn full_selection_scenario() {
    let mut p = BattlePanel::new();
    p.user(&actor("Charmander"));
    assert_eq!(p.input(&confirm()), Some(BattlePanels::Main));
    assert_eq!(p.active, BattlePanels::Main);

    p.active = BattlePanels::Fight;
    assert_eq!(p.input(&confirm()), Some(BattlePanels::Fight));
    assert_eq!(p.routed(), Some(PanelKind::Fight));

    p.active = BattlePanels::Target(MoveTarget::Single, None);
    assert_eq!(
        p.input(&confirm()),
        Some(BattlePanels::Target(MoveTarget::Single, None))
    );
    assert_eq!(p.active, BattlePanels::Main);
    assert_eq!(p.input(&FrameInput::idle()), None);
}
