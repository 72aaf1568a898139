//! The action dispatcher: what each key-bound action asks of the shell.
//!
//! The shell itself (workspaces, windows, outputs) lives outside this
//! library. The dispatcher turns an action into one `Command` for it; where
//! the outcome of that command decides what comes next (a failed activation,
//! a focus or move that found no target), a second function here takes the
//! outcome and says what follows.
use vstd::prelude::*;
use crate::action::{
    workspace_index, workspace_index_of, Action, Direction, FocusDirection, Orientation,
    ResizeDirection, ResizeEdge, WorkspaceLayout,
};
use crate::keys::{KeyPattern, KeyState};
use crate::hit_test::Loc;
use crate::modal::{ModalState, NodeDesc, OverviewMode, ResizeMode, Trigger};

verus! {

/// The identity of an output.
#[derive(Clone, Copy, Debug, PartialEq, Eq, Structural)]
pub struct OutputId(pub u64);

/// An output with its workspaces: the index of the active one and how many
/// there are.
#[derive(Clone, Copy, Debug, PartialEq, Eq, Structural)]
pub struct OutputWorkspaces {
    pub output: OutputId,
    pub active: usize,
    pub count: usize,
}

/// What the dispatcher needs to know of the shell.
pub struct ActionContext {
    /// The outputs in the shell's order.
    pub outputs: Vec<OutputWorkspaces>,
    /// The seat's active output.
    pub current: OutputId,
    /// The active workspace of the current output shows a fullscreen window.
    pub fullscreen: bool,
    pub layout: WorkspaceLayout,
}

/// One request to the shell.
#[derive(Clone, Debug, PartialEq, Eq)]
pub enum Command {
    Nothing,
    /// Stop the compositor.
    Stop,
    ToggleDebug,
    /// Ask the focused window to close.
    CloseFocused,
    /// Activate a workspace of an output; if that fails, run `on_failure`.
    Activate { output: OutputId, workspace: usize, on_failure: Option<Action> },
    /// Activate the active workspace of another output and make that output
    /// the seat's active one.
    SwitchOutput { output: OutputId, workspace: usize },
    /// Move the focused window to a workspace (`None`: the active one) of an
    /// output; focus follows it if `follow`. If that fails, run `on_failure`.
    MoveWindow {
        to: OutputId,
        workspace: Option<usize>,
        follow: bool,
        direction: Option<Direction>,
        on_failure: Option<Action>,
    },
    /// Move the focus within the active workspace.
    FocusNext { towards: FocusDirection, swap_with: Option<NodeDesc> },
    /// Move the focused element within the active workspace.
    MoveElement(Direction),
    /// Grab the keyboard for swapping the focused node, if it has one.
    BeginSwap,
    ToggleMaximize,
    /// Apply this resize mode to the shell.
    SetResizeMode(ResizeMode),
    ResizeStep(ResizeDirection, ResizeEdge),
    FinishResize(ResizeDirection, ResizeEdge),
    ToggleOrientation,
    SetOrientation(Orientation),
    ToggleStacking,
    ToggleTiling,
    ToggleWindowFloating,
    /// Run a shell command line.
    Spawn(String),
}

/// The index of the first entry of `outs` from `i` on that is output `id`.
pub open spec fn index_from(outs: Seq<OutputWorkspaces>, id: OutputId, i: int) -> Option<int>
    decreases outs.len() - i,
{
    if i < 0 || i >= outs.len() {
        None
    } else if outs[i].output == id {
        Some(i)
    } else {
        index_from(outs, id, i + 1)
    }
}

/// The index of the last entry of `outs` below `n` that is output `id`.
pub open spec fn last_index_below(outs: Seq<OutputWorkspaces>, id: OutputId, n: int) -> Option<
    int,
>
    decreases n,
{
    if n <= 0 || n > outs.len() {
        None
    } else if outs[n - 1].output == id {
        Some(n - 1)
    } else {
        last_index_below(outs, id, n - 1)
    }
}

/// The entry of the output `id`.
pub open spec fn entry_of(outs: Seq<OutputWorkspaces>, id: OutputId) -> Option<OutputWorkspaces> {
    match index_from(outs, id, 0) {
        Some(i) => Some(outs[i]),
        None => None,
    }
}

/// The output after `id` in the shell's order.
pub open spec fn next_of(outs: Seq<OutputWorkspaces>, id: OutputId) -> Option<OutputWorkspaces> {
    match index_from(outs, id, 0) {
        Some(i) => if i < outs.len() - 1 {
            Some(outs[i + 1])
        } else {
            None
        },
        None => None,
    }
}

/// The output before `id` in the shell's order.
pub open spec fn previous_of(outs: Seq<OutputWorkspaces>, id: OutputId) -> Option<
    OutputWorkspaces,
> {
    match last_index_below(outs, id, outs.len() as int) {
        Some(i) => if i >= 1 {
            Some(outs[i - 1])
        } else {
            None
        },
        None => None,
    }
}

/// `n + 1`, or `n` where that does not fit.
pub open spec fn sat_inc(n: usize) -> usize {
    if n == usize::MAX {
        n
    } else {
        (n + 1) as usize
    }
}

/// `n - 1`, or `0` for `0`.
pub open spec fn sat_dec(n: usize) -> usize {
    if n == 0 {
        0
    } else {
        (n - 1) as usize
    }
}

/// Activate the workspace that `f` picks on the current output.
pub open spec fn activate_on(
    outs: Seq<OutputWorkspaces>,
    current: OutputId,
    f: spec_fn(OutputWorkspaces) -> usize,
    on_failure: Option<Action>,
) -> Command {
    match entry_of(outs, current) {
        Some(e) => Command::Activate { output: current, workspace: f(e), on_failure },
        None => Command::Nothing,
    }
}

/// Move the focused window to the workspace that `f` picks on the current
/// output.
pub open spec fn move_on(
    outs: Seq<OutputWorkspaces>,
    current: OutputId,
    f: spec_fn(OutputWorkspaces) -> usize,
    follow: bool,
    direction: Option<Direction>,
    on_failure: Option<Action>,
) -> Command {
    match entry_of(outs, current) {
        Some(e) => Command::MoveWindow {
            to: current,
            workspace: Some(f(e)),
            follow,
            direction,
            on_failure,
        },
        None => Command::Nothing,
    }
}

/// Make `target` the seat's output.
pub open spec fn switch_to(target: Option<OutputWorkspaces>) -> Command {
    match target {
        Some(o) => Command::SwitchOutput { output: o.output, workspace: o.active },
        None => Command::Nothing,
    }
}

/// Move the focused window to the active workspace of `target`.
pub open spec fn send_to(
    target: Option<OutputWorkspaces>,
    follow: bool,
    direction: Option<Direction>,
) -> Command {
    match target {
        Some(o) => Command::MoveWindow {
            to: o.output,
            workspace: None,
            follow,
            direction,
            on_failure: None,
        },
        None => Command::Nothing,
    }
}

/// The node of a window swap in progress.
pub open spec fn swap_node(ov: OverviewMode) -> Option<NodeDesc> {
    match ov {
        OverviewMode::Started(Trigger::KeyboardSwap(_, d)) => Some(d),
        _ => None,
    }
}

/// The command for `action`.
pub open spec fn command_for(
    action: Action,
    pattern: KeyPattern,
    direction: Option<Direction>,
    outs: Seq<OutputWorkspaces>,
    current: OutputId,
    fullscreen: bool,
    overview: OverviewMode,
) -> Command {
    let next = |e: OutputWorkspaces| sat_inc(e.active);
    let prev = |e: OutputWorkspaces| sat_dec(e.active);
    let last = |e: OutputWorkspaces| sat_dec(e.count);
    match action {
        Action::Terminate => Command::Stop,
        Action::Debug => Command::ToggleDebug,
        Action::Close => Command::CloseFocused,
        Action::Workspace(n) => Command::Activate {
            output: current,
            workspace: workspace_index_of(n) as usize,
            on_failure: None,
        },
        Action::NextWorkspace => activate_on(outs, current, next, Some(Action::NextOutput)),
        Action::PreviousWorkspace => activate_on(
            outs,
            current,
            prev,
            Some(Action::PreviousOutput),
        ),
        Action::LastWorkspace => activate_on(outs, current, last, None),
        Action::MoveToWorkspace(n) => Command::MoveWindow {
            to: current,
            workspace: Some(workspace_index_of(n) as usize),
            follow: true,
            direction: None,
            on_failure: None,
        },
        Action::SendToWorkspace(n) => Command::MoveWindow {
            to: current,
            workspace: Some(workspace_index_of(n) as usize),
            follow: false,
            direction: None,
            on_failure: None,
        },
        Action::MoveToNextWorkspace => move_on(
            outs,
            current,
            next,
            true,
            direction,
            Some(Action::MoveToNextOutput),
        ),
        Action::SendToNextWorkspace => move_on(
            outs,
            current,
            next,
            false,
            direction,
            Some(Action::SendToNextOutput),
        ),
        Action::MoveToPreviousWorkspace => move_on(
            outs,
            current,
            prev,
            true,
            direction,
            Some(Action::MoveToPreviousOutput),
        ),
        Action::SendToPreviousWorkspace => move_on(
            outs,
            current,
            prev,
            false,
            direction,
            Some(Action::SendToPreviousOutput),
        ),
        Action::MoveToLastWorkspace => move_on(outs, current, last, true, None, None),
        Action::SendToLastWorkspace => move_on(outs, current, last, false, None, None),
        Action::NextOutput => switch_to(next_of(outs, current)),
        Action::PreviousOutput => switch_to(previous_of(outs, current)),
        Action::MoveToNextOutput => send_to(next_of(outs, current), true, direction),
        Action::SendToNextOutput => send_to(next_of(outs, current), false, direction),
        Action::MoveToPreviousOutput => send_to(previous_of(outs, current), true, direction),
        Action::SendToPreviousOutput => send_to(previous_of(outs, current), false, direction),
        Action::Focus(d) => Command::FocusNext { towards: d, swap_with: swap_node(overview) },
        Action::Move(d) => if fullscreen {
            Command::Nothing
        } else {
            Command::MoveElement(d)
        },
        Action::SwapWindow => if fullscreen {
            Command::Nothing
        } else {
            Command::BeginSwap
        },
        Action::Maximize => Command::ToggleMaximize,
        Action::Resizing(d) => Command::SetResizeMode(ResizeMode::Started(pattern, d)),
        Action::_ResizingInternal(d, e, s) => if s == KeyState::Pressed {
            Command::ResizeStep(d, e)
        } else {
            Command::FinishResize(d, e)
        },
        Action::ToggleOrientation => Command::ToggleOrientation,
        Action::Orientation(o) => Command::SetOrientation(o),
        Action::ToggleStacking => Command::ToggleStacking,
        Action::ToggleTiling => Command::ToggleTiling,
        Action::ToggleWindowFloating => Command::ToggleWindowFloating,
        Action::Spawn(c) => Command::Spawn(c),
    }
}

/// The index of the first entry that is output `id`.
fn find_output(outs: &Vec<OutputWorkspaces>, id: OutputId) -> (r: Option<usize>)
    ensures
        match r {
            Some(i) => index_from(outs@, id, 0) == Some(i as int) && i < outs@.len(),
            None => index_from(outs@, id, 0) is None,
        },
{
    let mut i: usize = 0;
    while i < outs.len()
        invariant
            i <= outs@.len(),
            index_from(outs@, id, 0) == index_from(outs@, id, i as int),
        decreases outs@.len() - i,
    {
        if outs[i].output == id {
            return Some(i);
        }
        i = i + 1;
    }
    None
}

/// The output after `id` in the shell's order.
pub fn next_output(outs: &Vec<OutputWorkspaces>, id: OutputId) -> (r: Option<OutputWorkspaces>)
    ensures
        r == next_of(outs@, id),
{
    match find_output(outs, id) {
        Some(i) => if i < outs.len() - 1 {
            Some(outs[i + 1])
        } else {
            None
        },
        None => None,
    }
}

/// The output before `id` in the shell's order.
pub fn previous_output(outs: &Vec<OutputWorkspaces>, id: OutputId) -> (r: Option<
    OutputWorkspaces,
>)
    ensures
        r == previous_of(outs@, id),
{
    let mut n: usize = outs.len();
    while n > 0
        invariant
            n <= outs@.len(),
            last_index_below(outs@, id, outs@.len() as int) == last_index_below(
                outs@,
                id,
                n as int,
            ),
        decreases n,
    {
        if outs[n - 1].output == id {
            if n >= 2 {
                return Some(outs[n - 2]);
            } else {
                return None;
            }
        }
        n = n - 1;
    }
    None
}

fn inc(n: usize) -> (r: usize)
    ensures
        r == sat_inc(n),
{
    n.saturating_add(1)
}

fn dec(n: usize) -> (r: usize)
    ensures
        r == sat_dec(n),
{
    n.saturating_sub(1)
}

/// Runs `action` as far as this library can: sets the resize mode that
/// `Resizing` asks for and says what the shell must do.
///
/// `pattern` is the binding that triggered the action; `direction`, where
/// the action stems from a window move, the direction of that move.
pub fn handle_action(
    modal: &mut ModalState,
    action: &Action,
    pattern: KeyPattern,
    direction: Option<Direction>,
    ctx: &ActionContext,
) -> (r: Command)
    ensures
        r == command_for(
            *action,
            pattern,
            direction,
            ctx.outputs@,
            ctx.current,
            ctx.fullscreen,
            old(modal).overview,
        ),
        final(modal).overview == old(modal).overview,
        final(modal).overview == crate::laws::overview_step(
            old(modal).overview,
            crate::laws::ModalStep::Dispatch(*action),
        ),
        final(modal).resize == (match *action {
            Action::Resizing(d) => ResizeMode::Started(pattern, d),
            _ => old(modal).resize,
        }),
{
    let outs = &ctx.outputs;
    let current = ctx.current;
    let entry = match find_output(outs, current) {
        Some(i) => Some(outs[i]),
        None => None,
    };
    match action {
        Action::Terminate => Command::Stop,
        Action::Debug => Command::ToggleDebug,
        Action::Close => Command::CloseFocused,
        Action::Workspace(n) => Command::Activate {
            output: current,
            workspace: workspace_index(*n),
            on_failure: None,
        },
        Action::NextWorkspace | Action::PreviousWorkspace | Action::LastWorkspace => {
            match entry {
                Some(e) => {
                    let (workspace, on_failure) = match action {
                        Action::NextWorkspace => (inc(e.active), Some(Action::NextOutput)),
                        Action::PreviousWorkspace => (dec(e.active), Some(Action::PreviousOutput)),
                        _ => (dec(e.count), None),
                    };
                    Command::Activate { output: current, workspace, on_failure }
                },
                None => Command::Nothing,
            }
        },
        Action::MoveToWorkspace(n) => Command::MoveWindow {
            to: current,
            workspace: Some(workspace_index(*n)),
            follow: true,
            direction: None,
            on_failure: None,
        },
        Action::SendToWorkspace(n) => Command::MoveWindow {
            to: current,
            workspace: Some(workspace_index(*n)),
            follow: false,
            direction: None,
            on_failure: None,
        },
        Action::MoveToNextWorkspace | Action::SendToNextWorkspace | Action::MoveToPreviousWorkspace
        | Action::SendToPreviousWorkspace | Action::MoveToLastWorkspace
        | Action::SendToLastWorkspace => {
            match entry {
                Some(e) => {
                    let (workspace, follow, dir, on_failure) = match action {
                        Action::MoveToNextWorkspace => (
                            inc(e.active),
                            true,
                            direction,
                            Some(Action::MoveToNextOutput),
                        ),
                        Action::SendToNextWorkspace => (
                            inc(e.active),
                            false,
                            direction,
                            Some(Action::SendToNextOutput),
                        ),
                        Action::MoveToPreviousWorkspace => (
                            dec(e.active),
                            true,
                            direction,
                            Some(Action::MoveToPreviousOutput),
                        ),
                        Action::SendToPreviousWorkspace => (
                            dec(e.active),
                            false,
                            direction,
                            Some(Action::SendToPreviousOutput),
                        ),
                        Action::MoveToLastWorkspace => (dec(e.count), true, None, None),
                        _ => (dec(e.count), false, None, None),
                    };
                    Command::MoveWindow {
                        to: current,
                        workspace: Some(workspace),
                        follow,
                        direction: dir,
                        on_failure,
                    }
                },
                None => Command::Nothing,
            }
        },
        Action::NextOutput | Action::PreviousOutput => {
            let target = if let Action::NextOutput = action {
                next_output(outs, current)
            } else {
                previous_output(outs, current)
            };
            match target {
                Some(o) => Command::SwitchOutput { output: o.output, workspace: o.active },
                None => Command::Nothing,
            }
        },
        Action::MoveToNextOutput | Action::SendToNextOutput | Action::MoveToPreviousOutput
        | Action::SendToPreviousOutput => {
            let (target, follow) = match action {
                Action::MoveToNextOutput => (next_output(outs, current), true),
                Action::SendToNextOutput => (next_output(outs, current), false),
                Action::MoveToPreviousOutput => (previous_output(outs, current), true),
                _ => (previous_output(outs, current), false),
            };
            match target {
                Some(o) => Command::MoveWindow {
                    to: o.output,
                    workspace: None,
                    follow,
                    direction,
                    on_failure: None,
                },
                None => Command::Nothing,
            }
        },
        Action::Focus(d) => {
            let swap_with = match modal.overview {
                OverviewMode::Started(Trigger::KeyboardSwap(_, desc)) => Some(desc),
                _ => None,
            };
            Command::FocusNext { towards: *d, swap_with }
        },
        Action::Move(d) => if ctx.fullscreen {
            Command::Nothing
        } else {
            Command::MoveElement(*d)
        },
        Action::SwapWindow => if ctx.fullscreen {
            Command::Nothing
        } else {
            Command::BeginSwap
        },
        Action::Maximize => Command::ToggleMaximize,
        Action::Resizing(d) => {
            modal.resize = ResizeMode::Started(pattern, *d);
            Command::SetResizeMode(modal.resize)
        },
        Action::_ResizingInternal(d, e, s) => if *s == KeyState::Pressed {
            Command::ResizeStep(*d, *e)
        } else {
            Command::FinishResize(*d, *e)
        },
        Action::ToggleOrientation => Command::ToggleOrientation,
        Action::Orientation(o) => Command::SetOrientation(*o),
        Action::ToggleStacking => Command::ToggleStacking,
        Action::ToggleTiling => Command::ToggleTiling,
        Action::ToggleWindowFloating => Command::ToggleWindowFloating,
        Action::Spawn(c) => Command::Spawn(c.clone()),
    }
}

/// The action that a focus move with no window in its direction turns into.
pub open spec fn focus_fallback_of(d: FocusDirection, l: WorkspaceLayout) -> Option<Action> {
    match (d, l) {
        (FocusDirection::Left, WorkspaceLayout::Horizontal)
        | (FocusDirection::Up, WorkspaceLayout::Vertical) => Some(Action::PreviousWorkspace),
        (FocusDirection::Right, WorkspaceLayout::Horizontal)
        | (FocusDirection::Down, WorkspaceLayout::Vertical) => Some(Action::NextWorkspace),
        (FocusDirection::Left, WorkspaceLayout::Vertical)
        | (FocusDirection::Up, WorkspaceLayout::Horizontal) => Some(Action::PreviousOutput),
        (FocusDirection::Right, WorkspaceLayout::Vertical)
        | (FocusDirection::Down, WorkspaceLayout::Horizontal) => Some(Action::NextOutput),
        _ => None,
    }
}

/// Where the focus goes when the active workspace has no window in
/// direction `d`: along the workspaces in their layout's direction, across
/// outputs in the other.
pub fn focus_fallback(d: FocusDirection, l: WorkspaceLayout) -> (r: Option<Action>)
    ensures
        r == focus_fallback_of(d, l),
{
    match (d, l) {
        (FocusDirection::Left, WorkspaceLayout::Horizontal)
        | (FocusDirection::Up, WorkspaceLayout::Vertical) => Some(Action::PreviousWorkspace),
        (FocusDirection::Right, WorkspaceLayout::Horizontal)
        | (FocusDirection::Down, WorkspaceLayout::Vertical) => Some(Action::NextWorkspace),
        (FocusDirection::Left, WorkspaceLayout::Vertical)
        | (FocusDirection::Up, WorkspaceLayout::Horizontal) => Some(Action::PreviousOutput),
        (FocusDirection::Right, WorkspaceLayout::Vertical)
        | (FocusDirection::Down, WorkspaceLayout::Horizontal) => Some(Action::NextOutput),
        _ => None,
    }
}

/// The action that a window move past the edge of its workspace turns into.
pub open spec fn move_fallback_of(d: Direction, l: WorkspaceLayout) -> Action {
    match (d, l) {
        (Direction::Left, WorkspaceLayout::Horizontal)
        | (Direction::Up, WorkspaceLayout::Vertical) => Action::MoveToPreviousWorkspace,
        (Direction::Right, WorkspaceLayout::Horizontal)
        | (Direction::Down, WorkspaceLayout::Vertical) => Action::MoveToNextWorkspace,
        (Direction::Left, WorkspaceLayout::Vertical)
        | (Direction::Up, WorkspaceLayout::Horizontal) => Action::MoveToPreviousOutput,
        (Direction::Right, WorkspaceLayout::Vertical)
        | (Direction::Down, WorkspaceLayout::Horizontal) => Action::MoveToNextOutput,
    }
}

/// Where a window goes when it is moved past the edge of its workspace.
pub fn move_fallback(d: Direction, l: WorkspaceLayout) -> (r: Action)
    ensures
        r == move_fallback_of(d, l),
{
    match (d, l) {
        (Direction::Left, WorkspaceLayout::Horizontal)
        | (Direction::Up, WorkspaceLayout::Vertical) => Action::MoveToPreviousWorkspace,
        (Direction::Right, WorkspaceLayout::Horizontal)
        | (Direction::Down, WorkspaceLayout::Vertical) => Action::MoveToNextWorkspace,
        (Direction::Left, WorkspaceLayout::Vertical)
        | (Direction::Up, WorkspaceLayout::Horizontal) => Action::MoveToPreviousOutput,
        (Direction::Right, WorkspaceLayout::Vertical)
        | (Direction::Down, WorkspaceLayout::Horizontal) => Action::MoveToNextOutput,
    }
}

/// What the workspace did with a window move.
#[derive(Clone, Copy, Debug, PartialEq, Eq, Structural)]
pub enum MoveOutcome {
    /// The window reached the edge; it should leave the workspace.
    MoveFurther,
    /// The move became a focus change.
    ShiftFocus,
    /// The window did not move.
    Stayed,
}

/// What follows a window move.
#[derive(Clone, Debug, PartialEq, Eq)]
pub enum MoveFollowUp {
    /// Run this action, with the move's direction.
    Run(Action),
    /// Focus the target that the workspace named.
    FocusShifted,
    /// The keyboard-driven move overview started.
    MoveOverviewStarted,
    Nothing,
}

/// Decides what follows a window move in `direction`: past the edge it
/// becomes a move to a neighbouring workspace or output; where the focused
/// window is tiled and did not move, the move overview starts, held open by
/// the binding's modifiers.
pub fn after_move(
    modal: &mut ModalState,
    outcome: MoveOutcome,
    direction: Direction,
    layout: WorkspaceLayout,
    focused_tiled: bool,
    pattern: KeyPattern,
) -> (r: MoveFollowUp)
    ensures
        final(modal).resize == old(modal).resize,
        final(modal).overview == crate::laws::overview_step(
            old(modal).overview,
            crate::laws::ModalStep::Moved(outcome, focused_tiled, pattern),
        ),
        outcome == MoveOutcome::Stayed && focused_tiled ==> final(modal).overview
            == OverviewMode::Started(Trigger::KeyboardMove(pattern.modifiers)) && r
            == MoveFollowUp::MoveOverviewStarted,
        !(outcome == MoveOutcome::Stayed && focused_tiled) ==> final(modal).overview == old(
            modal,
        ).overview,
        outcome == MoveOutcome::MoveFurther ==> r == MoveFollowUp::Run(
            move_fallback_of(direction, layout),
        ),
        outcome == MoveOutcome::ShiftFocus ==> r == MoveFollowUp::FocusShifted,
        outcome == MoveOutcome::Stayed && !focused_tiled ==> r == MoveFollowUp::Nothing,
{
    match outcome {
        MoveOutcome::MoveFurther => MoveFollowUp::Run(move_fallback(direction, layout)),
        MoveOutcome::ShiftFocus => MoveFollowUp::FocusShifted,
        MoveOutcome::Stayed => {
            if focused_tiled {
                modal.overview = OverviewMode::Started(Trigger::KeyboardMove(pattern.modifiers));
                MoveFollowUp::MoveOverviewStarted
            } else {
                MoveFollowUp::Nothing
            }
        },
    }
}

/// Starts the keyboard-driven swap of node `desc`, once the keyboard is
/// grabbed for it; the swap stays open while `pattern` is held.
pub fn start_swap(modal: &mut ModalState, pattern: KeyPattern, desc: NodeDesc)
    ensures
        final(modal).overview == OverviewMode::Started(Trigger::KeyboardSwap(pattern, desc)),
        final(modal).overview == crate::laws::overview_step(
            old(modal).overview,
            crate::laws::ModalStep::SwapStarted(pattern, desc),
        ),
        final(modal).resize == old(modal).resize,
{
    modal.overview = OverviewMode::Started(Trigger::KeyboardSwap(pattern, desc));
}

/// How a finished window swap is carried out.
#[derive(Clone, Copy, Debug, PartialEq, Eq, Structural)]
pub enum SwapPlan {
    /// Swap the two nodes, which lie on different workspaces.
    Across { from: NodeDesc, to: NodeDesc },
    /// Swap the two nodes of one workspace.
    Within { from: NodeDesc, to: NodeDesc },
    /// Move the node's tree to the empty workspace `to`.
    MoveTree { from: NodeDesc, to: u64 },
    Nothing,
}

/// The plan for a swap from `from` that ended.
pub open spec fn swap_plan_of(
    from: NodeDesc,
    focused: Option<Option<NodeDesc>>,
    active_workspace: u64,
    active_is_empty: bool,
) -> SwapPlan {
    match focused {
        Some(Some(to)) => if from.workspace != to.workspace {
            SwapPlan::Across { from, to }
        } else {
            SwapPlan::Within { from, to }
        },
        Some(None) => SwapPlan::Nothing,
        None => if active_workspace != from.workspace && active_is_empty {
            SwapPlan::MoveTree { from, to: active_workspace }
        } else {
            SwapPlan::Nothing
        },
    }
}

/// Decides how a window swap from `from` is finished. `focused` is the
/// keyboard focus, if any, with its node in the active workspace, if it has
/// one there; `active_is_empty` says whether the tiling tree of the active
/// workspace holds no window. A focused node is swapped with `from`; without
/// focus, the tree of `from` moves to the active workspace if that is
/// another one and empty.
pub fn swap_plan(
    from: NodeDesc,
    focused: Option<Option<NodeDesc>>,
    active_workspace: u64,
    active_is_empty: bool,
) -> (r: SwapPlan)
    ensures
        r == swap_plan_of(from, focused, active_workspace, active_is_empty),
{
    match focused {
        Some(Some(to)) => if from.workspace != to.workspace {
            SwapPlan::Across { from, to }
        } else {
            SwapPlan::Within { from, to }
        },
        Some(None) => SwapPlan::Nothing,
        None => if active_workspace != from.workspace && active_is_empty {
            SwapPlan::MoveTree { from, to: active_workspace }
        } else {
            SwapPlan::Nothing
        },
    }
}

/// What the shell answered to an activation or a window move: failure, or
/// success with the pointer position that it moved to, if it moved.
pub type ShellResult = Result<Option<Loc>, ()>;

/// What follows a command's result.
#[derive(Clone, Debug, PartialEq, Eq)]
pub struct FollowUp {
    /// The seat's active output becomes this one.
    pub set_active: Option<OutputId>,
    /// The pointer goes here, with no focus, in a synthetic motion.
    pub motion_to: Option<Loc>,
    /// This action runs next, with the same seat, binding and direction.
    pub run: Option<Action>,
}

/// What follows the shell's answer to `Command::Activate`: its fallback
/// action where the activation failed, nothing else.
pub fn after_activate(on_failure: &Option<Action>, result: ShellResult) -> (r: FollowUp)
    ensures
        r.set_active is None,
        r.motion_to is None,
        r.run == (if result is Err {
            *on_failure
        } else {
            None
        }),
{
    let run = match result {
        Err(_) => match on_failure {
            Some(a) => Some(a.duplicate()),
            None => None,
        },
        Ok(_) => None,
    };
    FollowUp { set_active: None, motion_to: None, run }
}

/// What follows the shell's answer to `Command::SwitchOutput` for `output`:
/// on success the output becomes the seat's active one, and the pointer
/// moves where the shell placed it; on failure nothing changes.
pub fn after_switch(output: OutputId, result: ShellResult) -> (r: FollowUp)
    ensures
        r.run is None,
        r.set_active == (if result is Ok {
            Some(output)
        } else {
            None
        }),
        r.motion_to == (match result {
            Ok(Some(p)) => Some(p),
            _ => None,
        }),
{
    match result {
        Ok(pos) => FollowUp { set_active: Some(output), motion_to: pos, run: None },
        Err(_) => FollowUp { set_active: None, motion_to: None, run: None },
    }
}

/// What follows the shell's answer to `Command::MoveWindow` with these
/// `workspace` and `on_failure`: on failure the fallback action; on a move
/// to another output (`workspace` is `None`) the pointer follows to where
/// the shell placed it; the seat's output stays.
pub fn after_move_window(
    workspace: Option<usize>,
    on_failure: &Option<Action>,
    result: ShellResult,
) -> (r: FollowUp)
    ensures
        r.set_active is None,
        r.run == (if result is Err {
            *on_failure
        } else {
            None
        }),
        r.motion_to == (match result {
            Ok(Some(p)) => if workspace is None {
                Some(p)
            } else {
                None
            },
            _ => None,
        }),
{
    match result {
        Err(_) => {
            let run = match on_failure {
                Some(a) => Some(a.duplicate()),
                None => None,
            };
            FollowUp { set_active: None, motion_to: None, run }
        },
        Ok(pos) => {
            let motion_to = if workspace.is_none() {
                pos
            } else {
                None
            };
            FollowUp { set_active: None, motion_to, run: None }
        },
    }
}

} // verus!
