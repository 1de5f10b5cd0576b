//! The global game state, its pending-transition slot and the per-frame
//! decisions that request a transition.

use crate::board::{Board, BoardPosition, EntityRef};
use crate::pickup::find_free_cell;
use crate::ui::{Cursor, EngineAction, Trigger, UiCommand, UiCommands};
use crate::Game;
use vstd::prelude::*;

verus! {

/// The score at or below which the game is over.
pub const GAME_OVER_SCORE: i32 = -500;

/// The four states of the game.
#[derive(Clone, Copy, Debug, PartialEq, Eq, Hash, Structural)]
pub enum GameState {
    Loading,
    Playing,
    GameOver,
    Menu,
}

impl Default for GameState {
    fn default() -> (state: GameState)
        ensures
            state == GameState::Loading,
    {
        GameState::Loading
    }
}

/// A committed change of state.
#[derive(Clone, Copy, Debug, PartialEq, Eq, Structural)]
pub struct Transition {
    pub exited: GameState,
    pub entered: GameState,
}

/// Work that runs when a state is entered or left.
#[derive(Clone, Copy, Debug, PartialEq, Eq, Structural)]
pub enum Hook {
    /// Spawn camera and light, start loading the assets, build the overlays.
    SetupLoading,
    /// Reset the counters, build the board, spawn player, scoreboard and pickup.
    SetupPlaying,
    /// Show the final count of cake eaten.
    DisplayScore,
    /// Show the Continue and Exit buttons.
    CreateMenuUi,
    /// Despawn every entity except cameras and windows.
    Teardown,
}

/// The hook that runs on entering `state`.
pub open spec fn spec_on_enter(state: GameState) -> Hook {
    match state {
        GameState::Loading => Hook::SetupLoading,
        GameState::Playing => Hook::SetupPlaying,
        GameState::GameOver => Hook::DisplayScore,
        GameState::Menu => Hook::CreateMenuUi,
    }
}

/// The hook that runs on leaving `state`, if it has one.
pub open spec fn spec_on_exit(state: GameState) -> Option<Hook> {
    match state {
        GameState::Playing | GameState::GameOver => Some(Hook::Teardown),
        GameState::Loading | GameState::Menu => None,
    }
}

/// The hook that runs on entering `state`.
#[verifier::when_used_as_spec(spec_on_enter)]
pub fn on_enter(state: GameState) -> (hook: Hook)
    ensures
        hook == spec_on_enter(state),
{
    match state {
        GameState::Loading => Hook::SetupLoading,
        GameState::Playing => Hook::SetupPlaying,
        GameState::GameOver => Hook::DisplayScore,
        GameState::Menu => Hook::CreateMenuUi,
    }
}

/// The hook that runs on leaving `state`, if it has one.
#[verifier::when_used_as_spec(spec_on_exit)]
pub fn on_exit(state: GameState) -> (hook: Option<Hook>)
    ensures
        hook == spec_on_exit(state),
{
    match state {
        GameState::Playing | GameState::GameOver => Some(Hook::Teardown),
        GameState::Loading | GameState::Menu => None,
    }
}

impl Transition {
    /// The hooks of this transition in the order in which they run: the exit
    /// hook of the state left, if any, then the entry hook of the state entered.
    pub open spec fn spec_hooks(&self) -> Seq<Hook> {
        match spec_on_exit(self.exited) {
            Some(exit) => seq![exit, spec_on_enter(self.entered)],
            None => seq![spec_on_enter(self.entered)],
        }
    }

    /// The hooks of this transition in the order in which they run.
    pub fn hooks(&self) -> (hooks: Vec<Hook>)
        ensures
            hooks@ == self.spec_hooks(),
    {
        let mut hooks: Vec<Hook> = Vec::new();
        match on_exit(self.exited) {
            Some(exit) => {
                hooks.push(exit);
            },
            None => {},
        }
        hooks.push(on_enter(self.entered));
        assert(hooks@ =~= self.spec_hooks());
        hooks
    }
}

/// The active state together with the slot that holds a requested one.
#[derive(Clone, Copy, Debug, PartialEq, Eq, Structural)]
pub struct StateMachine {
    pub current: GameState,
    pub next: Option<GameState>,
}

impl StateMachine {
    /// This machine with `state` written to the slot.
    pub open spec fn requested(self, state: GameState) -> StateMachine {
        StateMachine { current: self.current, next: Some(state) }
    }

    /// This machine after the frame boundary: the slot is empty and a
    /// requested state is the active one.
    pub open spec fn committed(self) -> StateMachine {
        match self.next {
            Some(state) => StateMachine { current: state, next: None },
            None => self,
        }
    }

    /// The transition that the frame boundary fires: one for a requested
    /// state that differs from the active one, none otherwise.
    pub open spec fn pending_transition(self) -> Option<Transition> {
        match self.next {
            Some(state) => if state != self.current {
                Some(Transition { exited: self.current, entered: state })
            } else {
                None
            },
            None => None,
        }
    }

    /// A machine in the initial state with an empty slot.
    pub fn new() -> (machine: StateMachine)
        ensures
            machine == (StateMachine { current: GameState::Loading, next: None }),
    {
        StateMachine { current: GameState::Loading, next: None }
    }

    /// Requests `state`: writes the slot and leaves the active state alone.
    pub fn set(&mut self, state: GameState)
        ensures
            *final(self) == old(self).requested(state),
    {
        self.next = Some(state);
    }

    /// The frame boundary: reads the slot once, empties it and commits a
    /// requested state. Returns the transition whose hooks must run.
    pub fn apply_state_transition(&mut self) -> (fired: Option<Transition>)
        ensures
            *final(self) == old(self).committed(),
            fired == old(self).pending_transition(),
    {
        match self.next {
            Some(state) => {
                let exited = self.current;
                self.next = None;
                self.current = state;
                if state != exited {
                    Some(Transition { exited, entered: state })
                } else {
                    None
                }
            },
            None => None,
        }
    }
}

/// A state requested during a frame is the active state after the next frame
/// boundary, whatever was in the slot before. Where it differs from the state
/// that was active, that boundary fires exactly the transition from the old
/// state to the new one; the boundary after it fires none.
pub proof fn lemma_request_takes_effect_once(machine: StateMachine, state: GameState)
    ensures
        UiCommand::SwitchState(state).applied_machine(machine) == machine.requested(state),
        machine.requested(state).committed().current == state,
        machine.requested(state).committed().next is None,
        state != machine.current ==> machine.requested(state).pending_transition() == Some(
            Transition { exited: machine.current, entered: state },
        ),
        state == machine.current ==> machine.requested(state).pending_transition() is None,
        machine.requested(state).committed().pending_transition() is None,
        machine.requested(state).committed().committed() == machine.requested(state).committed(),
{
}

/// A transition runs the entry hook of the state entered exactly once, as
/// its last hook, and at most one exit hook before it.
pub proof fn lemma_hooks_run_once(transition: Transition)
    ensures
        transition.spec_hooks().last() == spec_on_enter(transition.entered),
        spec_on_exit(transition.exited) is None ==> transition.spec_hooks().len() == 1,
        spec_on_exit(transition.exited) is Some ==> transition.spec_hooks().len() == 2
            && transition.spec_hooks()[0] == spec_on_exit(transition.exited)->0,
{
}

/// Ends the game once the score has fallen to the threshold: requests
/// `GameOver` then, and leaves the machine alone otherwise.
pub fn end_game(game: &Game, machine: &mut StateMachine)
    ensures
        *final(machine) == if game.score <= GAME_OVER_SCORE {
            old(machine).requested(GameState::GameOver)
        } else {
            *old(machine)
        },
{
    if game.score <= GAME_OVER_SCORE {
        machine.set(GameState::GameOver);
    }
}

/// Keyboard handling while the game is over: Space requests `Playing`.
pub fn gameover_keyboard(space_just_pressed: bool, machine: &mut StateMachine)
    ensures
        *final(machine) == if space_just_pressed {
            old(machine).requested(GameState::Playing)
        } else {
            *old(machine)
        },
{
    if space_just_pressed {
        machine.set(GameState::Playing);
    }
}

/// Keyboard handling while playing: Escape requests `Menu` and releases the
/// mouse.
pub fn enter_menu(
    escape_just_pressed: bool,
    machine: &mut StateMachine,
    actions: &mut Vec<EngineAction>,
)
    ensures
        *final(machine) == if escape_just_pressed {
            old(machine).requested(GameState::Menu)
        } else {
            *old(machine)
        },
        final(actions)@ == if escape_just_pressed {
            old(actions)@.push(EngineAction::SetCursor(Cursor::spec_released()))
        } else {
            old(actions)@
        },
{
    if escape_just_pressed {
        machine.set(GameState::Menu);
        actions.push(EngineAction::SetCursor(Cursor::released()));
    }
}

/// What entering `Playing` lays out on a board: the cells to tile, in the
/// order in which the cache keeps their tiles, the player's cell and the
/// cell of the first pickup, if the search found one.
#[derive(Debug)]
pub struct PlayingPlan {
    pub cells: Vec<BoardPosition>,
    pub player: BoardPosition,
    pub pickup: Option<BoardPosition>,
}

/// Entering `Playing`. The counters go back to zero in any case. With a
/// board there is a plan: every cell of the board in row order, the player
/// in the middle of the board, and one pickup on a cell of the board that
/// `find_free_cell` found with the player's cell restricted. Without a board
/// there is none, and the rest of the entry is skipped.
pub fn setup(game: &mut Game, board: Option<Board>, max_attempts: usize) -> (plan: Option<
    PlayingPlan,
>)
    requires
        board is Some ==> board->0.width * board->0.height <= usize::MAX,
    ensures
        *final(game) == (Game { score: 0, cake_eaten: 0, ..*old(game) }),
        plan is Some <==> board is Some,
        plan is Some ==> plan->0.cells@.len() == board->0.width * board->0.height,
        plan is Some ==> forall|i: int|
            0 <= i < plan->0.cells@.len() ==> #[trigger] plan->0.cells@[i] == (BoardPosition {
                x: (i % board->0.width as int) as usize,
                y: (i / board->0.width as int) as usize,
            }),
        plan is Some ==> plan->0.player == (BoardPosition {
            x: board->0.width / 2,
            y: board->0.height / 2,
        }),
        plan is Some && plan->0.pickup is Some ==> board->0.contains(plan->0.pickup->0)
            && plan->0.pickup->0 != plan->0.player,
        plan is Some && (board->0.width == 0 || board->0.height == 0 || max_attempts == 0)
            ==> plan->0.pickup is None,
{
    game.reset();
    match board {
        Some(board) => {
            let cells = board.cells();
            let player = board.player_start();
            let mut restricted: Vec<BoardPosition> = Vec::new();
            restricted.push(player);
            let pickup = find_free_cell(&board, &restricted, max_attempts);
            proof {
                assert(restricted@[0] == player);
            }
            Some(PlayingPlan { cells, player, pickup })
        },
        None => None,
    }
}

/// Commands of a button that starts or resumes play and removes the overlay
/// `overlay` it sits on.
pub fn play_button_commands(overlay: EntityRef) -> (commands: UiCommands)
    ensures
        commands@ == seq![
            UiCommand::SwitchState(GameState::Playing),
            UiCommand::CaptureMouse,
            UiCommand::Despawn(overlay),
        ],
{
    let commands = UiCommands::builder().with(UiCommand::SwitchState(GameState::Playing)).with(
        UiCommand::CaptureMouse,
    ).with(UiCommand::Despawn(overlay));
    assert(commands@ =~= seq![
        UiCommand::SwitchState(GameState::Playing),
        UiCommand::CaptureMouse,
        UiCommand::Despawn(overlay),
    ]);
    commands
}

/// Commands of the menu's Exit button on the overlay `overlay`.
pub fn exit_button_commands(overlay: EntityRef) -> (commands: UiCommands)
    ensures
        commands@ == seq![
            UiCommand::SwitchState(GameState::GameOver),
            UiCommand::ReleaseMouse,
            UiCommand::Despawn(overlay),
            UiCommand::Terminate,
        ],
{
    let commands = UiCommands::builder().with(UiCommand::SwitchState(GameState::GameOver)).with(
        UiCommand::ReleaseMouse,
    ).with(UiCommand::Despawn(overlay)).with(UiCommand::Terminate);
    assert(commands@ =~= seq![
        UiCommand::SwitchState(GameState::GameOver),
        UiCommand::ReleaseMouse,
        UiCommand::Despawn(overlay),
        UiCommand::Terminate,
    ]);
    commands
}

/// What the loading overlay carries: a trigger on the three scene assets and
/// the command that swaps the overlay `loading_ui` for the hidden `ready_ui`.
pub fn loading_trigger(game: &Game, loading_ui: EntityRef, ready_ui: EntityRef) -> (gate: (
    Trigger,
    UiCommands,
))
    ensures
        gate.0.handles() == seq![game.tile_handle, game.player_handle, game.pickup_handle],
        gate.0.is_scenes(),
        gate.1@ == seq![UiCommand::SwapUi(loading_ui, ready_ui)],
{
    let trigger = Trigger::scenes_loaded(game.scene_handles());
    let commands = UiCommands::builder().with(UiCommand::SwapUi(loading_ui, ready_ui));
    assert(commands@ =~= seq![UiCommand::SwapUi(loading_ui, ready_ui)]);
    (trigger, commands)
}

} // verus!
