use vstd::prelude::*;
use crate::state::{CombatState, GameState, GameWidgetState, Trigger, observe};
use crate::ui::{
    Direction, Element, ElementView, Extent, Layout, NodeView, UiNode, UiTree, is_tree, nested,
    plain_layout,
};

verus! {

/// The widget that shows the screen of the current game mode.
#[derive(PartialEq, Eq, Structural, Clone, Copy, Debug, Hash, Default)]
pub struct GameStateProps;

/// The widget that shows the combat menu.
#[derive(PartialEq, Eq, Structural, Clone, Copy, Debug, Hash, Default)]
pub struct CombatStateProps;

/// What is spawned for the game-mode widget: its name and its own layout.
#[derive(Clone, Debug, PartialEq, Eq)]
pub struct GameStateBundle {
    pub name: String,
    pub widget: GameStateProps,
    pub layout: Layout,
}

/// What is spawned for the combat widget: its name and its own layout.
#[derive(Clone, Debug, PartialEq, Eq)]
pub struct CombatStateBundle {
    pub name: String,
    pub widget: CombatStateProps,
    pub layout: Layout,
}

/// The game-mode widget fills the space it is given.
pub open spec fn game_widget_layout() -> Layout {
    Layout { width: Extent::Stretch(1), height: Extent::Stretch(1), ..plain_layout() }
}

/// The combat widget takes the full width and the height of its content.
pub open spec fn combat_widget_layout() -> Layout {
    Layout { width: Extent::Stretch(1), ..plain_layout() }
}

impl Default for GameStateBundle {
    fn default() -> (r: GameStateBundle)
        ensures
            r.name@ == "GameStateWidget"@,
            r.layout == game_widget_layout(),
    {
        GameStateBundle {
            name: "GameStateWidget".to_owned(),
            widget: GameStateProps,
            layout: Layout { width: Extent::Stretch(1), height: Extent::Stretch(1), ..Layout::plain() },
        }
    }
}

impl Default for CombatStateBundle {
    fn default() -> (r: CombatStateBundle)
        ensures
            r.name@ == "CombatStateWidget"@,
            r.layout == combat_widget_layout(),
    {
        CombatStateBundle {
            name: "CombatStateWidget".to_owned(),
            widget: CombatStateProps,
            layout: Layout { width: Extent::Stretch(1), ..Layout::plain() },
        }
    }
}

pub open spec fn panel_at(depth: nat, key: Seq<char>, layout: Layout) -> NodeView {
    NodeView { depth, element: ElementView::Panel { key, layout } }
}

pub open spec fn label_at(depth: nat, text: Seq<char>, size: u32) -> NodeView {
    NodeView { depth, element: ElementView::Label { text, size } }
}

pub open spec fn button_at(depth: nat, key: Seq<char>, text: Seq<char>, trigger: Trigger) -> NodeView {
    NodeView { depth, element: ElementView::Button { key, text, trigger } }
}

/// The size of the text of a screen's title.
pub const TITLE_SIZE: u32 = 20;

/// The screen of the overworld: a title "OverWorld" and a button
/// "Enter Combat", inside two panels.
pub open spec fn overworld_screen() -> Seq<NodeView> {
    seq![
        panel_at(0, Seq::empty(), plain_layout()),
        panel_at(1, "a"@, plain_layout()),
        panel_at(2, Seq::empty(), plain_layout()),
        label_at(3, "OverWorld"@, TITLE_SIZE),
        button_at(3, Seq::empty(), "Enter Combat"@, Trigger::EnterCombat),
    ]
}

/// The layout of the combat widget while it shows its menu.
pub open spec fn combat_scene_layout() -> Layout {
    Layout {
        direction: Direction::Row,
        width: Extent::Pixels(860),
        height: Extent::Auto,
        spacing: 10,
        padding_left: 10,
    }
}

/// The layout of the combat menu.
pub open spec fn combat_menu_layout() -> Layout {
    Layout {
        direction: Direction::Column,
        width: Extent::Pixels(420),
        height: Extent::Auto,
        spacing: 10,
        padding_left: 0,
    }
}

/// What the combat widget shows: a menu with a title "Combat" and a button
/// "Run Away!" that leaves combat.
pub open spec fn combat_screen() -> Seq<NodeView> {
    seq![
        panel_at(0, "combat_scene"@, combat_scene_layout()),
        panel_at(1, "combat_menu"@, combat_menu_layout()),
        label_at(2, "Combat"@, TITLE_SIZE),
        button_at(2, "combat_menu_run"@, "Run Away!"@, Trigger::LeaveCombat),
    ]
}

/// The tree that is on screen in mode `s`.
pub open spec fn game_screen(s: GameState) -> Seq<NodeView> {
    match s {
        GameState::Overworld => overworld_screen(),
        GameState::Combat => seq![panel_at(0, Seq::empty(), plain_layout())] + nested(
            combat_screen(),
        ),
    }
}

fn panel(depth: u32, key: &str, layout: Layout) -> (r: UiNode)
    ensures
        r@ == panel_at(depth as nat, key@, layout),
{
    UiNode { depth, element: Element::Panel { key: key.to_owned(), layout } }
}

fn label(depth: u32, text: &str, size: u32) -> (r: UiNode)
    ensures
        r@ == label_at(depth as nat, text@, size),
{
    UiNode { depth, element: Element::Label { text: text.to_owned(), size } }
}

fn button(depth: u32, key: &str, text: &str, trigger: Trigger) -> (r: UiNode)
    ensures
        r@ == button_at(depth as nat, key@, text@, trigger),
{
    UiNode { depth, element: Element::Button { key: key.to_owned(), text: text.to_owned(), trigger } }
}

/// The combat menu. The combat phase is taken for the day the menu depends
/// on it; today it does not.
pub fn combat_state_render(combat_state: CombatState) -> (r: UiTree)
    ensures
        r@ == combat_screen(),
        is_tree(r@),
{
    let _ = combat_state;
    let scene = Layout {
        direction: Direction::Row,
        width: Extent::Pixels(860),
        height: Extent::Auto,
        spacing: 10,
        padding_left: 10,
    };
    let menu = Layout {
        direction: Direction::Column,
        width: Extent::Pixels(420),
        height: Extent::Auto,
        spacing: 10,
        padding_left: 0,
    };
    let nodes = vec![
        panel(0, "combat_scene", scene),
        panel(1, "combat_menu", menu),
        label(2, "Combat", TITLE_SIZE),
        button(2, "combat_menu_run", "Run Away!", Trigger::LeaveCombat),
    ];
    let r = UiTree { nodes };
    assert(r@ =~= combat_screen());
    r
}

/// The tree to show in mode `game_state`.
pub fn project(game_state: GameState) -> (r: UiTree)
    ensures
        r@ == game_screen(game_state),
        is_tree(r@),
{
    let empty = "";
    proof {
        reveal_strlit("");
        assert(empty@ =~= Seq::<char>::empty());
    }
    match game_state {
        GameState::Overworld => {
            let nodes = vec![
                panel(0, empty, Layout::plain()),
                panel(1, "a", Layout::plain()),
                panel(2, empty, Layout::plain()),
                label(3, "OverWorld", TITLE_SIZE),
                button(3, empty, "Enter Combat", Trigger::EnterCombat),
            ];
            let r = UiTree { nodes };
            assert(r@ =~= overworld_screen());
            r
        },
        GameState::Combat => {
            let mut nodes = vec![panel(0, empty, Layout::plain())];
            let menu = combat_state_render(CombatState::NotInCombat);
            menu.append_nested(&mut nodes);
            let r = UiTree { nodes };
            assert(r@ =~= game_screen(game_state));
            r
        },
    }
}

/// A render pass of the game-mode widget in mode `game_state`: records the
/// mode in the widget's state and returns the tree to show.
pub fn game_state_render(game_state: GameState, state: &mut GameWidgetState) -> (r: UiTree)
    ensures
        *final(state) == observe(*old(state), game_state),
        r@ == game_screen(game_state),
        is_tree(r@),
{
    state.observe(game_state);
    project(game_state)
}

/// Two render passes in the same mode, with no transition between them,
/// show the same tree, and the second leaves the widget's state as the
/// first left it.
pub proof fn lemma_render_idempotent(
    s: GameState,
    w: GameWidgetState,
    first: UiTree,
    second: UiTree,
)
    requires
        first@ == game_screen(s),
        second@ == game_screen(s),
    ensures
        first@ == second@,
        observe(observe(w, s), s) == observe(w, s),
{
}

} // verus!
