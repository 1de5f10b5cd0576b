//! Deferred commands: lists of commands owned by UI elements, triggers that
//! gate a list on assets being loaded, and the pass that applies queued
//! commands.

use crate::board::EntityRef;
use crate::states::{GameState, StateMachine};
use crate::AssetRef;
use smallvec::SmallVec;
use vstd::prelude::*;

verus! {

/// A `smallvec::SmallVec` of commands, which keeps the first two inline.
#[verifier::external_body]
pub struct CommandList {
    inner: SmallVec<[UiCommand; 2]>,
}

/// A `smallvec::SmallVec` of asset handles, which keeps the first three inline.
#[verifier::external_body]
pub struct HandleList {
    inner: SmallVec<[AssetRef; 3]>,
}

/// The commands that a `SmallVec` of commands holds, first to last.
pub uninterp spec fn command_seq(list: CommandList) -> Seq<UiCommand>;

/// The handles that a `SmallVec` of handles holds, first to last.
pub uninterp spec fn handle_seq(list: HandleList) -> Seq<AssetRef>;

/// `SmallVec::new`: a vector that holds nothing.
#[verifier::external_body]
fn commands_new() -> (list: CommandList)
    ensures
        command_seq(list) == Seq::<UiCommand>::empty(),
{
    CommandList { inner: SmallVec::new() }
}

/// `SmallVec::push`: appends `command` behind the items already held.
#[verifier::external_body]
fn commands_push(list: &mut CommandList, command: UiCommand)
    ensures
        command_seq(*final(list)) == command_seq(*old(list)).push(command),
{
    list.inner.push(command)
}

/// `SmallVec::as_slice`: the items held, in order, as a slice.
#[verifier::external_body]
fn commands_as_slice(list: &CommandList) -> (items: &[UiCommand])
    ensures
        items@ == command_seq(*list),
{
    list.inner.as_slice()
}

/// `SmallVec::from_vec`: a vector that holds the items of `handles` in
/// their order.
#[verifier::external_body]
fn handles_from_vec(handles: Vec<AssetRef>) -> (list: HandleList)
    ensures
        handle_seq(list) == handles@,
{
    HandleList { inner: SmallVec::from_vec(handles) }
}

/// `SmallVec::as_slice`: the handles held, in order, as a slice.
#[verifier::external_body]
fn handles_as_slice(list: &HandleList) -> (items: &[AssetRef])
    ensures
        items@ == handle_seq(*list),
{
    list.inner.as_slice()
}

/// Commands that can be queued when UI elements are interacted with.
#[derive(Clone, Copy, Debug, PartialEq, Eq, Structural)]
pub enum UiCommand {
    SwitchState(GameState),
    Despawn(EntityRef),
    SwapUi(EntityRef, EntityRef),
    CaptureMouse,
    ReleaseMouse,
    Terminate,
}

/// Cursor settings of the primary window.
#[derive(Clone, Copy, Debug, PartialEq, Eq, Structural)]
pub struct Cursor {
    pub visible: bool,
    pub locked: bool,
}

impl Cursor {
    /// The cursor while the game has the mouse: hidden and locked.
    pub open spec fn spec_captured() -> Cursor {
        Cursor { visible: false, locked: true }
    }

    /// The cursor while the game does not have the mouse: shown and free.
    pub open spec fn spec_released() -> Cursor {
        Cursor { visible: true, locked: false }
    }

    /// The cursor while the game has the mouse: hidden and locked.
    #[verifier::when_used_as_spec(spec_captured)]
    pub fn captured() -> (cursor: Cursor)
        ensures
            cursor == Cursor::spec_captured(),
    {
        Cursor { visible: false, locked: true }
    }

    /// The cursor while the game does not have the mouse: shown and free.
    #[verifier::when_used_as_spec(spec_released)]
    pub fn released() -> (cursor: Cursor)
        ensures
            cursor == Cursor::spec_released(),
    {
        Cursor { visible: true, locked: false }
    }
}

/// What the engine must do for a command that touches entities, the window
/// or the process.
#[derive(Clone, Copy, Debug, PartialEq, Eq, Structural)]
pub enum EngineAction {
    /// Remove the entity and its descendants.
    DespawnRecursive(EntityRef),
    /// If the first entity exists: remove it with its descendants and make
    /// the second visible.
    SwapVisibility(EntityRef, EntityRef),
    /// Set the cursor of the single primary window.
    SetCursor(Cursor),
    /// Request the end of the process.
    Exit,
}

impl UiCommand {
    /// The engine action of this command; `SwitchState` has none.
    pub open spec fn action(self) -> Option<EngineAction> {
        match self {
            UiCommand::SwitchState(_) => None,
            UiCommand::Despawn(entity) => Some(EngineAction::DespawnRecursive(entity)),
            UiCommand::SwapUi(hide, show) => Some(EngineAction::SwapVisibility(hide, show)),
            UiCommand::CaptureMouse => Some(EngineAction::SetCursor(Cursor::spec_captured())),
            UiCommand::ReleaseMouse => Some(EngineAction::SetCursor(Cursor::spec_released())),
            UiCommand::Terminate => Some(EngineAction::Exit),
        }
    }

    /// The machine after this command: `SwitchState` writes the slot, every
    /// other command leaves the machine alone.
    pub open spec fn applied_machine(self, machine: StateMachine) -> StateMachine {
        match self {
            UiCommand::SwitchState(state) => machine.requested(state),
            _ => machine,
        }
    }

    /// The engine's work list after this command.
    pub open spec fn applied_actions(self, actions: Seq<EngineAction>) -> Seq<EngineAction> {
        match self.action() {
            Some(action) => actions.push(action),
            None => actions,
        }
    }

    /// Applies this command: `SwitchState` writes the pending-state slot;
    /// every other command appends its engine action to `actions`.
    pub fn apply(self, machine: &mut StateMachine, actions: &mut Vec<EngineAction>)
        ensures
            *final(machine) == self.applied_machine(*old(machine)),
            final(actions)@ == self.applied_actions(old(actions)@),
    {
        match self {
            UiCommand::SwitchState(state) => {
                machine.set(state);
            },
            UiCommand::Despawn(entity) => {
                actions.push(EngineAction::DespawnRecursive(entity));
            },
            UiCommand::SwapUi(hide, show) => {
                actions.push(EngineAction::SwapVisibility(hide, show));
            },
            UiCommand::CaptureMouse => {
                actions.push(EngineAction::SetCursor(Cursor::captured()));
            },
            UiCommand::ReleaseMouse => {
                actions.push(EngineAction::SetCursor(Cursor::released()));
            },
            UiCommand::Terminate => {
                actions.push(EngineAction::Exit);
            },
        }
    }
}

/// The machine after all of `commands` were applied, first to last.
pub open spec fn machine_after(commands: Seq<UiCommand>, machine: StateMachine) -> StateMachine
    decreases commands.len(),
{
    if commands.len() == 0 {
        machine
    } else {
        commands.last().applied_machine(machine_after(commands.drop_last(), machine))
    }
}

/// The engine's work list after all of `commands` were applied, first to last.
pub open spec fn actions_after(commands: Seq<UiCommand>, actions: Seq<EngineAction>) -> Seq<
    EngineAction,
>
    decreases commands.len(),
{
    if commands.len() == 0 {
        actions
    } else {
        commands.last().applied_actions(actions_after(commands.drop_last(), actions))
    }
}

/// The dispatch pass: applies every queued command in order and leaves the
/// queue empty.
pub fn dispatch(
    queue: &mut Vec<UiCommand>,
    machine: &mut StateMachine,
    actions: &mut Vec<EngineAction>,
)
    ensures
        final(queue)@.len() == 0,
        *final(machine) == machine_after(old(queue)@, *old(machine)),
        final(actions)@ == actions_after(old(queue)@, old(actions)@),
{
    let mut i: usize = 0;
    while i < queue.len()
        invariant
            i <= queue.len(),
            queue@ == old(queue)@,
            *machine == machine_after(queue@.take(i as int), *old(machine)),
            actions@ == actions_after(queue@.take(i as int), old(actions)@),
        decreases queue.len() - i,
    {
        let command = queue[i];
        proof {
            assert(queue@.take(i + 1).drop_last() =~= queue@.take(i as int));
            assert(queue@.take(i + 1).last() == command);
        }
        command.apply(machine, actions);
        i += 1;
    }
    proof {
        assert(queue@.take(i as int) =~= queue@);
    }
    queue.clear();
}

/// The ordered list of commands that a UI element owns.
pub struct UiCommands(CommandList);

impl UiCommands {
    /// The commands, first to last.
    pub closed spec fn view(&self) -> Seq<UiCommand> {
        command_seq(self.0)
    }

    /// An empty list.
    pub fn builder() -> (commands: UiCommands)
        ensures
            commands@ == Seq::<UiCommand>::empty(),
    {
        UiCommands(commands_new())
    }

    /// This list with `command` appended.
    pub fn with(self, command: UiCommand) -> (commands: UiCommands)
        ensures
            commands@ == self@.push(command),
    {
        let mut commands = self;
        commands.push(command);
        commands
    }

    /// Appends `command`.
    pub fn push(&mut self, command: UiCommand)
        ensures
            final(self)@ == old(self)@.push(command),
    {
        commands_push(&mut self.0, command)
    }

    /// Queues a copy of every command, in order, behind what `queue` holds.
    pub fn add_all(&self, queue: &mut Vec<UiCommand>)
        ensures
            final(queue)@ == old(queue)@ + self@,
    {
        let items = commands_as_slice(&self.0);
        let mut i: usize = 0;
        while i < items.len()
            invariant
                i <= items.len(),
                items@ == self@,
                queue@ == old(queue)@ + items@.take(i as int),
            decreases items.len() - i,
        {
            queue.push(items[i]);
            proof {
                assert(items@.take(i + 1) =~= items@.take(i as int).push(items@[i as int]));
                assert(queue@ =~= old(queue)@ + items@.take(i + 1));
            }
            i += 1;
        }
        proof {
            assert(items@.take(i as int) =~= items@);
        }
    }
}

/// The state of a UI element under the pointer.
#[derive(Clone, Copy, Debug, PartialEq, Eq, Structural)]
pub enum Interaction {
    Pressed,
    Hovered,
    Idle,
}

/// A button whose interaction changed: a press queues the button's commands,
/// anything else queues nothing.
pub fn button_clicked(interaction: Interaction, commands: &UiCommands, queue: &mut Vec<UiCommand>)
    ensures
        final(queue)@ == if interaction == Interaction::Pressed {
            old(queue)@ + commands@
        } else {
            old(queue)@
        },
{
    match interaction {
        Interaction::Pressed => {
            commands.add_all(queue);
        },
        Interaction::Hovered => {},
        Interaction::Idle => {},
    }
}

/// How far the engine has come with loading an asset.
#[derive(Clone, Copy, Debug, PartialEq, Eq, Structural)]
pub enum LoadState {
    NotLoaded,
    Loading,
    Loaded,
    Failed,
}

/// One line of the engine's report on its assets.
#[derive(Clone, Copy, Debug, PartialEq, Eq, Structural)]
pub struct AssetStatus {
    pub asset: AssetRef,
    pub state: LoadState,
}

/// The state that `report` gives for `asset` from line `from` on: that of
/// the first line about it, or `None` where no line is.
pub open spec fn load_state_from(report: Seq<AssetStatus>, asset: AssetRef, from: int) -> Option<
    LoadState,
>
    decreases report.len() - from,
{
    if from < 0 || from >= report.len() {
        None
    } else if report[from].asset == asset {
        Some(report[from].state)
    } else {
        load_state_from(report, asset, from + 1)
    }
}

/// The state that `report` gives for `asset`.
pub open spec fn load_state_of(report: Seq<AssetStatus>, asset: AssetRef) -> Option<LoadState> {
    load_state_from(report, asset, 0)
}

/// Every one of `handles` is reported as loaded.
pub open spec fn all_loaded(report: Seq<AssetStatus>, handles: Seq<AssetRef>) -> bool {
    forall|i: int|
        0 <= i < handles.len() ==> #[trigger] load_state_of(report, handles[i]) == Some(
            LoadState::Loaded,
        )
}

/// The state that `report` gives for `asset`.
pub fn get_load_state(report: &Vec<AssetStatus>, asset: AssetRef) -> (state: Option<LoadState>)
    ensures
        state == load_state_of(report@, asset),
{
    let mut i: usize = 0;
    while i < report.len()
        invariant
            i <= report.len(),
            load_state_of(report@, asset) == load_state_from(report@, asset, i as int),
        decreases report.len() - i,
    {
        if report[i].asset == asset {
            return Some(report[i].state);
        }
        i += 1;
    }
    None
}

/// Gates a list of commands on assets being loaded.
pub enum Trigger {
    /// Fires when the given assets are loaded.
    AssetsLoaded(HandleList),
    /// Fires when the given scene assets are loaded.
    ScenesLoaded(HandleList),
}

impl Trigger {
    /// The handles that this trigger waits for.
    pub closed spec fn handles(&self) -> Seq<AssetRef> {
        match self {
            Trigger::AssetsLoaded(list) => handle_seq(*list),
            Trigger::ScenesLoaded(list) => handle_seq(*list),
        }
    }

    /// Whether this trigger waits for scene assets.
    pub open spec fn is_scenes(&self) -> bool {
        self is ScenesLoaded
    }

    /// A trigger on generic assets.
    pub fn assets_loaded(handles: Vec<AssetRef>) -> (trigger: Trigger)
        ensures
            trigger.handles() == handles@,
            !trigger.is_scenes(),
    {
        Trigger::AssetsLoaded(handles_from_vec(handles))
    }

    /// A trigger on scene assets.
    pub fn scenes_loaded(handles: Vec<AssetRef>) -> (trigger: Trigger)
        ensures
            trigger.handles() == handles@,
            trigger.is_scenes(),
    {
        Trigger::ScenesLoaded(handles_from_vec(handles))
    }

    /// Whether every handle of this trigger is reported as loaded.
    pub fn is_ready(&self, report: &Vec<AssetStatus>) -> (ready: bool)
        ensures
            ready == all_loaded(report@, self.handles()),
    {
        let items = match self {
            Trigger::AssetsLoaded(list) => handles_as_slice(list),
            Trigger::ScenesLoaded(list) => handles_as_slice(list),
        };
        let mut i: usize = 0;
        while i < items.len()
            invariant
                i <= items.len(),
                items@ == self.handles(),
                forall|k: int|
                    0 <= k < i ==> #[trigger] load_state_of(report@, items@[k]) == Some(
                        LoadState::Loaded,
                    ),
            decreases items.len() - i,
        {
            match get_load_state(report, items[i]) {
                Some(LoadState::Loaded) => {},
                _ => {
                    assert(load_state_of(report@, self.handles()[i as int]) != Some(
                        LoadState::Loaded,
                    ));
                    return false;
                },
            }
            i += 1;
        }
        true
    }
}

/// A trigger with a handle that is not reported as loaded is not ready,
/// however many of its other handles are; one without handles is ready.
pub proof fn lemma_one_unloaded_blocks(report: Seq<AssetStatus>, handles: Seq<AssetRef>, i: int)
    requires
        0 <= i < handles.len(),
        load_state_of(report, handles[i]) != Some(LoadState::Loaded),
    ensures
        !all_loaded(report, handles),
        all_loaded(report, Seq::<AssetRef>::empty()),
{
}

/// Polls one trigger: where every handle is reported as loaded, the
/// companion commands are queued in order; otherwise nothing is queued.
/// Returns whether the trigger fired. A trigger stays in place after firing.
pub fn trigger_check(
    trigger: &Trigger,
    commands: &UiCommands,
    report: &Vec<AssetStatus>,
    queue: &mut Vec<UiCommand>,
) -> (fired: bool)
    ensures
        fired == all_loaded(report@, trigger.handles()),
        final(queue)@ == if fired {
            old(queue)@ + commands@
        } else {
            old(queue)@
        },
{
    if trigger.is_ready(report) {
        commands.add_all(queue);
        true
    } else {
        false
    }
}

} // verus!
