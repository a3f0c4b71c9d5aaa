use game_ui::screens::{
    combat_state_render, game_state_render, project, CombatStateBundle, GameStateBundle,
    TITLE_SIZE,
};
use game_ui::state::{
    reduce, update_combat_state, update_game_state, CombatState, GameFlowController, GameState,
    GameWidgetState, Trigger,
};
use game_ui::ui::{Direction, Element, Extent, Layout, UiNode, UiTree};

fn title(tree: &UiTree) -> String {
    for node in &tree.nodes {
        if let Element::Label { text, .. } = &node.element {
            return text.clone();
        }
    }
    panic!("no label in the tree");
}

fn button(tree: &UiTree) -> (String, Trigger) {
    for node in &tree.nodes {
        if let Element::Button { text, trigger, .. } = &node.element {
            return (text.clone(), *trigger);
        }
    }
    panic!("no button in the tree");
}

fn plain() -> Layout {
    Layout {
        direction: Direction::Column,
        width: Extent::Auto,
        height: Extent::Auto,
        spacing: 0,
        padding_left: 0,
    }
}

#[test]
fn starts_in_overworld() {
    let c = GameFlowController::new();
    assert_eq!(c.current_state(), GameState::Overworld);
    assert_eq!(c.combat_state(), CombatState::NotInCombat);
    assert_eq!(GameFlowController::default().current_state(), GameState::Overworld);
    assert_eq!(GameState::default(), GameState::Overworld);
    assert_eq!(CombatState::default(), CombatState::NotInCombat);
}

#[test]
fn enter_combat_from_overworld() {
    let mut c = GameFlowController::new();
    assert_eq!(c.request_transition(Trigger::EnterCombat), GameState::Combat);
    assert_eq!(c.current_state(), GameState::Combat);
}

#[test]
fn leave_combat_from_combat() {
    let mut c = GameFlowController::new();
    c.request_transition(Trigger::EnterCombat);
    assert_eq!(c.request_transition(Trigger::LeaveCombat), GameState::Overworld);
    assert_eq!(c.current_state(), GameState::Overworld);
}

#[test]
fn leave_combat_in_overworld_is_ignored() {
    let mut c = GameFlowController::new();
    assert_eq!(c.request_transition(Trigger::LeaveCombat), GameState::Overworld);
    assert_eq!(c.current_state(), GameState::Overworld);
}

#[test]
fn enter_combat_in_combat_is_ignored() {
    let mut c = GameFlowController::new();
    c.request_transition(Trigger::EnterCombat);
    assert_eq!(c.request_transition(Trigger::EnterCombat), GameState::Combat);
    assert_eq!(c.current_state(), GameState::Combat);
    assert_eq!(c.combat_state(), CombatState::NotInCombat);
}

#[test]
fn reduce_follows_the_table() {
    assert_eq!(reduce(GameState::Overworld, Trigger::EnterCombat), GameState::Combat);
    assert_eq!(reduce(GameState::Combat, Trigger::LeaveCombat), GameState::Overworld);
    assert_eq!(reduce(GameState::Overworld, Trigger::LeaveCombat), GameState::Overworld);
    assert_eq!(reduce(GameState::Combat, Trigger::EnterCombat), GameState::Combat);
}

#[test]
fn any_trigger_sequence_ends_in_a_mode() {
    let mut c = GameFlowController::new();
    let ts = [
        Trigger::LeaveCombat,
        Trigger::EnterCombat,
        Trigger::EnterCombat,
        Trigger::LeaveCombat,
        Trigger::LeaveCombat,
        Trigger::EnterCombat,
    ];
    let mut expected = GameState::Overworld;
    for t in ts {
        expected = reduce(expected, t);
        let got = c.request_transition(t);
        assert_eq!(got, expected);
        assert!(got == GameState::Overworld || got == GameState::Combat);
    }
    assert_eq!(c.current_state(), GameState::Combat);
}

#[test]
fn projection_is_idempotent() {
    for s in [GameState::Overworld, GameState::Combat] {
        let mut w = GameWidgetState::default();
        let first = game_state_render(s, &mut w);
        let after_first = w;
        let second = game_state_render(s, &mut w);
        assert_eq!(first, second);
        assert_eq!(w, after_first);
        assert_eq!(project(s), project(s));
    }
}

#[test]
fn overworld_screen_tree() {
    let t = project(GameState::Overworld);
    let expected = vec![
        UiNode { depth: 0, element: Element::Panel { key: String::new(), layout: plain() } },
        UiNode { depth: 1, element: Element::Panel { key: "a".to_string(), layout: plain() } },
        UiNode { depth: 2, element: Element::Panel { key: String::new(), layout: plain() } },
        UiNode {
            depth: 3,
            element: Element::Label { text: "OverWorld".to_string(), size: 20 },
        },
        UiNode {
            depth: 3,
            element: Element::Button {
                key: String::new(),
                text: "Enter Combat".to_string(),
                trigger: Trigger::EnterCombat,
            },
        },
    ];
    assert_eq!(t.nodes, expected);
    assert_eq!(TITLE_SIZE, 20);
}

#[test]
fn combat_screen_tree() {
    let t = project(GameState::Combat);
    assert_eq!(t.nodes.len(), 5);
    assert_eq!(t.nodes[0], UiNode { depth: 0, element: Element::Panel { key: String::new(), layout: plain() } });
    let menu = combat_state_render(CombatState::PlayerTurn);
    for (i, n) in menu.nodes.iter().enumerate() {
        assert_eq!(t.nodes[i + 1].depth, n.depth + 1);
        assert_eq!(t.nodes[i + 1].element, n.element);
    }
    assert_eq!(
        t.nodes[1].element,
        Element::Panel {
            key: "combat_scene".to_string(),
            layout: Layout {
                direction: Direction::Row,
                width: Extent::Pixels(860),
                height: Extent::Auto,
                spacing: 10,
                padding_left: 10,
            },
        }
    );
    assert_eq!(
        t.nodes[2].element,
        Element::Panel {
            key: "combat_menu".to_string(),
            layout: Layout {
                direction: Direction::Column,
                width: Extent::Pixels(420),
                height: Extent::Auto,
                spacing: 10,
                padding_left: 0,
            },
        }
    );
    assert_eq!(t.nodes[3], UiNode { depth: 3, element: Element::Label { text: "Combat".to_string(), size: 20 } });
    assert_eq!(
        t.nodes[4],
        UiNode {
            depth: 3,
            element: Element::Button {
                key: "combat_menu_run".to_string(),
                text: "Run Away!".to_string(),
                trigger: Trigger::LeaveCombat,
            },
        }
    );
}

#[test]
fn combat_menu_ignores_the_phase() {
    assert_eq!(combat_state_render(CombatState::NotInCombat), combat_state_render(CombatState::Ending));
    assert_eq!(combat_state_render(CombatState::Starting).nodes[0].depth, 0);
}

#[test]
fn end_to_end_enter_and_leave() {
    let mut c = GameFlowController::new();
    let mut w = GameWidgetState::default();
    assert_eq!(c.current_state(), GameState::Overworld);
    let start = game_state_render(c.current_state(), &mut w);
    assert_eq!(title(&start), "OverWorld");
    assert_eq!(button(&start), ("Enter Combat".to_string(), Trigger::EnterCombat));

    let (_, t) = button(&start);
    assert_eq!(c.request_transition(t), GameState::Combat);
    let fight = game_state_render(c.current_state(), &mut w);
    assert_eq!(title(&fight), "Combat");
    assert_eq!(button(&fight), ("Run Away!".to_string(), Trigger::LeaveCombat));
    assert_eq!(w, GameWidgetState { current: GameState::Combat, last: GameState::Overworld });

    let (_, t) = button(&fight);
    assert_eq!(c.request_transition(t), GameState::Overworld);
    let back = game_state_render(c.current_state(), &mut w);
    assert_eq!(back, start);
    assert_eq!(w, GameWidgetState { current: GameState::Overworld, last: GameState::Combat });
}

#[test]
fn widget_state_tracks_changes() {
    let mut w = GameWidgetState::default();
    assert_eq!(w, GameWidgetState { current: GameState::Overworld, last: GameState::Overworld });
    w.observe(GameState::Overworld);
    assert_eq!(w, GameWidgetState { current: GameState::Overworld, last: GameState::Overworld });
    w.observe(GameState::Combat);
    assert_eq!(w, GameWidgetState { current: GameState::Combat, last: GameState::Overworld });
    w.observe(GameState::Combat);
    assert_eq!(w, GameWidgetState { current: GameState::Combat, last: GameState::Overworld });
}

#[test]
fn update_game_state_reports_changes() {
    let mut local = GameState::Overworld;
    assert!(!update_game_state(false, GameState::Overworld, &mut local));
    assert_eq!(local, GameState::Overworld);
    assert!(update_game_state(false, GameState::Combat, &mut local));
    assert_eq!(local, GameState::Combat);
    assert!(!update_game_state(false, GameState::Combat, &mut local));
    assert!(update_game_state(true, GameState::Overworld, &mut local));
    assert_eq!(local, GameState::Combat);
}

#[test]
fn update_combat_state_reports_changes() {
    let mut local = CombatState::NotInCombat;
    assert!(!update_combat_state(false, CombatState::NotInCombat, &mut local));
    assert!(update_combat_state(false, CombatState::PlayerTurn, &mut local));
    assert_eq!(local, CombatState::PlayerTurn);
    assert!(update_combat_state(true, CombatState::Ending, &mut local));
    assert_eq!(local, CombatState::PlayerTurn);
}

#[test]
fn bundles_have_names_and_layouts() {
    let g = GameStateBundle::default();
    assert_eq!(g.name, "GameStateWidget");
    assert_eq!(g.layout.width, Extent::Stretch(1));
    assert_eq!(g.layout.height, Extent::Stretch(1));
    let c = CombatStateBundle::default();
    assert_eq!(c.name, "CombatStateWidget");
    assert_eq!(c.layout.width, Extent::Stretch(1));
    assert_eq!(c.layout.height, Extent::Auto);
}

#[test]
fn element_copy_is_equal() {
    let e = Element::Button { key: "k".to_string(), text: "Go".to_string(), trigger: Trigger::EnterCombat };
    assert_eq!(e.copy(), e);
    let mut out = vec![UiNode { depth: 0, element: Element::Panel { key: String::new(), layout: Layout::plain() } }];
    combat_state_render(CombatState::NotInCombat).append_nested(&mut out);
    assert_eq!(out.len(), 5);
    assert_eq!(out[4].depth, 3);
}
