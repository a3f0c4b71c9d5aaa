use vstd::prelude::*;

verus! {

/// The top-level mode of the game: roaming the overworld, or fighting.
#[derive(PartialEq, Eq, Structural, Clone, Copy, Debug, Hash)]
pub enum GameState {
    Overworld,
    Combat,
}

impl Default for GameState {
    /// A game starts in the overworld.
    fn default() -> (r: GameState)
        ensures
            r == GameState::Overworld,
    {
        GameState::Overworld
    }
}

/// The phase of a fight. No rule moves between these phases yet: the value
/// is carried along beside the game mode and read by nothing.
#[derive(PartialEq, Eq, Structural, Clone, Copy, Debug, Hash)]
pub enum CombatState {
    NotInCombat,
    Starting,
    PlayerTurn,
    PlayerAttack,
    PlayerRun,
    EnemyTurn,
    Ending,
}

impl Default for CombatState {
    fn default() -> (r: CombatState)
        ensures
            r == CombatState::NotInCombat,
    {
        CombatState::NotInCombat
    }
}

/// The meaning of a clicked button, fixed when the button is built.
#[derive(PartialEq, Eq, Structural, Clone, Copy, Debug, Hash)]
pub enum Trigger {
    /// "Enter Combat".
    EnterCombat,
    /// "Run Away!" / "Leave Combat".
    LeaveCombat,
}

/// The transition rule: entering combat from the overworld, leaving it from
/// combat; a trigger that does not fit the current mode changes nothing.
pub open spec fn next_state(s: GameState, t: Trigger) -> GameState {
    match (s, t) {
        (GameState::Overworld, Trigger::EnterCombat) => GameState::Combat,
        (GameState::Combat, Trigger::LeaveCombat) => GameState::Overworld,
        _ => s,
    }
}

/// The mode reached from `s` after the triggers `ts`, in order.
pub open spec fn run(s: GameState, ts: Seq<Trigger>) -> GameState
    decreases ts.len(),
{
    if ts.len() == 0 {
        s
    } else {
        run(next_state(s, ts[0]), ts.drop_first())
    }
}

/// Applies one trigger to a mode.
pub fn reduce(s: GameState, t: Trigger) -> (r: GameState)
    ensures
        r == next_state(s, t),
{
    match (s, t) {
        (GameState::Overworld, Trigger::EnterCombat) => GameState::Combat,
        (GameState::Combat, Trigger::LeaveCombat) => GameState::Overworld,
        _ => s,
    }
}

/// Whatever the triggers, the mode reached is one of the two modes, and each
/// step of the way is given by the transition rule.
pub proof fn lemma_run_is_total(s: GameState, ts: Seq<Trigger>)
    ensures
        run(s, ts) == GameState::Overworld || run(s, ts) == GameState::Combat,
        ts.len() > 0 ==> run(s, ts) == next_state(run(s, ts.drop_last()), ts.last()),
    decreases ts.len(),
{
    if ts.len() > 0 {
        lemma_run_is_total(next_state(s, ts[0]), ts.drop_first());
        if ts.len() > 1 {
            assert(ts.drop_first().drop_last() =~= ts.drop_last().drop_first());
        } else {
            assert(ts.drop_first().len() == 0);
            assert(ts.drop_last().len() == 0);
        }
    }
}

/// Owns the current game mode and the (unused) combat phase, and applies
/// the triggers that clicks produce.
#[derive(Debug)]
pub struct GameFlowController {
    game: GameState,
    combat: CombatState,
}

impl GameFlowController {
    pub closed spec fn mode(&self) -> GameState {
        self.game
    }

    pub closed spec fn phase(&self) -> CombatState {
        self.combat
    }

    /// A controller in its starting mode, the overworld.
    pub fn new() -> (r: GameFlowController)
        ensures
            r.mode() == GameState::Overworld,
            r.phase() == CombatState::NotInCombat,
    {
        GameFlowController { game: GameState::default(), combat: CombatState::default() }
    }

    /// The present mode.
    pub fn current_state(&self) -> (r: GameState)
        ensures
            r == self.mode(),
    {
        self.game
    }

    /// The present combat phase.
    pub fn combat_state(&self) -> (r: CombatState)
        ensures
            r == self.phase(),
    {
        self.combat
    }

    /// Applies the trigger of a click and returns the new mode.
    pub fn request_transition(&mut self, event: Trigger) -> (r: GameState)
        ensures
            r == next_state(old(self).mode(), event),
            final(self).mode() == r,
            final(self).phase() == old(self).phase(),
    {
        self.game = reduce(self.game, event);
        self.game
    }
}

impl Default for GameFlowController {
    fn default() -> (r: GameFlowController)
        ensures
            r.mode() == GameState::Overworld,
            r.phase() == CombatState::NotInCombat,
    {
        GameFlowController::new()
    }
}

/// What a widget last rendered and what it rendered before that, kept to
/// tell whether the mode changed between two render passes.
#[derive(PartialEq, Eq, Structural, Clone, Copy, Debug, Hash)]
pub struct GameWidgetState {
    pub current: GameState,
    pub last: GameState,
}

impl Default for GameWidgetState {
    fn default() -> (r: GameWidgetState)
        ensures
            r == (GameWidgetState { current: GameState::Overworld, last: GameState::Overworld }),
    {
        GameWidgetState { current: GameState::Overworld, last: GameState::Overworld }
    }
}

/// The widget state after a render pass in mode `s`: a new mode moves the
/// current one to `last`; the same mode leaves it as it was.
pub open spec fn observe(w: GameWidgetState, s: GameState) -> GameWidgetState {
    if w.current != s {
        GameWidgetState { current: s, last: w.current }
    } else {
        w
    }
}

impl GameWidgetState {
    /// Records a render pass in mode `s`.
    pub fn observe(&mut self, s: GameState)
        ensures
            *final(self) == observe(*old(self), s),
    {
        if self.current != s {
            self.last = self.current;
            self.current = s;
        }
    }
}

/// Whether a widget must render again: it must when its own properties or
/// state changed (`widget_changed`), or when the mode differs from the one
/// it saw last. In the second case the mode seen is brought up to date;
/// when `widget_changed` holds it is left alone.
pub fn update_game_state(
    widget_changed: bool,
    game_state: GameState,
    local_state: &mut GameState,
) -> (r: bool)
    ensures
        r == (widget_changed || game_state != *old(local_state)),
        *final(local_state) == if widget_changed { *old(local_state) } else { game_state },
{
    if widget_changed {
        return true;
    }
    let changed = game_state != *local_state;
    if changed {
        *local_state = game_state;
    }
    changed
}

/// The same test as [`update_game_state`], on the combat phase.
pub fn update_combat_state(
    widget_changed: bool,
    combat_state: CombatState,
    local_state: &mut CombatState,
) -> (r: bool)
    ensures
        r == (widget_changed || combat_state != *old(local_state)),
        *final(local_state) == if widget_changed { *old(local_state) } else { combat_state },
{
    if widget_changed {
        return true;
    }
    let changed = combat_state != *local_state;
    if changed {
        *local_state = combat_state;
    }
    changed
}

} // verus!
