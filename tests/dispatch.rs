use cosmic_input::action::{
    workspace_index, Action, Direction, FocusDirection, Orientation, ResizeDirection, ResizeEdge,
    WorkspaceLayout,
};
use cosmic_input::dispatch::{
    after_activate, after_move_window, after_switch, FollowUp,
    after_move, focus_fallback, handle_action, move_fallback, next_output, previous_output,
    start_swap, swap_plan, ActionContext, Command, MoveFollowUp, MoveOutcome, OutputId,
    OutputWorkspaces, SwapPlan,
};
use cosmic_input::keys::{KeyPattern, KeyState, Modifiers};
use cosmic_input::hit_test::Loc;
use cosmic_input::modal::{ModalState, NodeDesc, OverviewMode, ResizeMode, Trigger};

const SUPER: Modifiers = Modifiers { ctrl: false, alt: false, shift: false, logo: true };
const PATTERN: KeyPattern = KeyPattern { modifiers: SUPER, key: 0x31 };

fn ctx(outputs: Vec<OutputWorkspaces>, current: u64) -> ActionContext {
    ActionContext {
        outputs,
        current: OutputId(current),
        fullscreen: false,
        layout: WorkspaceLayout::Horizontal,
    }
}

fn out(id: u64, active: usize, count: usize) -> OutputWorkspaces {
    OutputWorkspaces { output: OutputId(id), active, count }
}

fn dispatch(action: Action, c: &ActionContext) -> Command {
    let mut modal = ModalState::new();
    handle_action(&mut modal, &action, PATTERN, None, c)
}

#[test]
fn workspace_zero_is_the_tenth() {
    assert_eq!(workspace_index(0), 9);
    for n in 1u8..=9 {
        assert_eq!(workspace_index(n), (n - 1) as usize);
    }
    let c = ctx(vec![out(1, 0, 3)], 1);
    assert_eq!(
        dispatch(Action::Workspace(0), &c),
        Command::Activate { output: OutputId(1), workspace: 9, on_failure: None }
    );
    assert_eq!(
        dispatch(Action::Workspace(4), &c),
        Command::Activate { output: OutputId(1), workspace: 3, on_failure: None }
    );
}

#[test]
fn next_workspace_falls_back_to_next_output() {
    let c = ctx(vec![out(1, 0, 1), out(2, 2, 4)], 1);
    assert_eq!(
        dispatch(Action::NextWorkspace, &c),
        Command::Activate { output: OutputId(1), workspace: 1, on_failure: Some(Action::NextOutput) }
    );
    assert_eq!(
        dispatch(Action::NextOutput, &c),
        Command::SwitchOutput { output: OutputId(2), workspace: 2 }
    );
    let single = ctx(vec![out(1, 0, 1)], 1);
    assert_eq!(dispatch(Action::NextOutput, &single), Command::Nothing);
}

#[test]
fn previous_and_last_workspace_saturate() {
    let c = ctx(vec![out(1, 0, 3)], 1);
    assert_eq!(
        dispatch(Action::PreviousWorkspace, &c),
        Command::Activate {
            output: OutputId(1),
            workspace: 0,
            on_failure: Some(Action::PreviousOutput),
        }
    );
    assert_eq!(
        dispatch(Action::LastWorkspace, &c),
        Command::Activate { output: OutputId(1), workspace: 2, on_failure: None }
    );
    let empty = ctx(vec![out(1, 0, 0)], 1);
    assert_eq!(
        dispatch(Action::LastWorkspace, &empty),
        Command::Activate { output: OutputId(1), workspace: 0, on_failure: None }
    );
    let full = ctx(vec![out(1, usize::MAX, usize::MAX)], 1);
    assert_eq!(
        dispatch(Action::NextWorkspace, &full),
        Command::Activate {
            output: OutputId(1),
            workspace: usize::MAX,
            on_failure: Some(Action::NextOutput),
        }
    );
}

#[test]
fn unknown_output_does_nothing() {
    let c = ctx(vec![out(1, 0, 3)], 9);
    assert_eq!(dispatch(Action::NextWorkspace, &c), Command::Nothing);
    assert_eq!(dispatch(Action::PreviousOutput, &c), Command::Nothing);
}

#[test]
fn move_and_send_differ_only_in_follow() {
    let c = ctx(vec![out(1, 2, 5)], 1);
    assert_eq!(
        dispatch(Action::MoveToWorkspace(0), &c),
        Command::MoveWindow {
            to: OutputId(1),
            workspace: Some(9),
            follow: true,
            direction: None,
            on_failure: None,
        }
    );
    assert_eq!(
        dispatch(Action::SendToWorkspace(3), &c),
        Command::MoveWindow {
            to: OutputId(1),
            workspace: Some(2),
            follow: false,
            direction: None,
            on_failure: None,
        }
    );
    assert_eq!(
        dispatch(Action::MoveToNextWorkspace, &c),
        Command::MoveWindow {
            to: OutputId(1),
            workspace: Some(3),
            follow: true,
            direction: None,
            on_failure: Some(Action::MoveToNextOutput),
        }
    );
    assert_eq!(
        dispatch(Action::MoveToPreviousWorkspace, &c),
        Command::MoveWindow {
            to: OutputId(1),
            workspace: Some(1),
            follow: true,
            direction: None,
            on_failure: Some(Action::MoveToPreviousOutput),
        }
    );
    assert_eq!(
        dispatch(Action::SendToPreviousWorkspace, &c),
        Command::MoveWindow {
            to: OutputId(1),
            workspace: Some(1),
            follow: false,
            direction: None,
            on_failure: Some(Action::SendToPreviousOutput),
        }
    );
    assert_eq!(
        dispatch(Action::SendToLastWorkspace, &c),
        Command::MoveWindow {
            to: OutputId(1),
            workspace: Some(4),
            follow: false,
            direction: None,
            on_failure: None,
        }
    );
}

#[test]
fn move_to_outputs_keeps_direction() {
    let c = ctx(vec![out(1, 0, 1), out(2, 0, 1), out(3, 0, 1)], 2);
    let mut modal = ModalState::new();
    let r = handle_action(&mut modal, &Action::MoveToPreviousOutput, PATTERN, Some(Direction::Left), &c);
    assert_eq!(
        r,
        Command::MoveWindow {
            to: OutputId(1),
            workspace: None,
            follow: true,
            direction: Some(Direction::Left),
            on_failure: None,
        }
    );
    let r = handle_action(&mut modal, &Action::SendToNextOutput, PATTERN, None, &c);
    assert_eq!(
        r,
        Command::MoveWindow { to: OutputId(3), workspace: None, follow: false, direction: None, on_failure: None }
    );
}

#[test]
fn neighbouring_outputs() {
    let outs = vec![out(1, 0, 1), out(2, 1, 1), out(3, 2, 1)];
    assert_eq!(next_output(&outs, OutputId(1)), Some(out(2, 1, 1)));
    assert_eq!(next_output(&outs, OutputId(3)), None);
    assert_eq!(previous_output(&outs, OutputId(3)), Some(out(2, 1, 1)));
    assert_eq!(previous_output(&outs, OutputId(1)), None);
    assert_eq!(previous_output(&outs, OutputId(4)), None);
}

#[test]
fn fullscreen_blocks_move_and_swap() {
    let mut c = ctx(vec![out(1, 0, 1)], 1);
    assert_eq!(dispatch(Action::Move(Direction::Up), &c), Command::MoveElement(Direction::Up));
    assert_eq!(dispatch(Action::SwapWindow, &c), Command::BeginSwap);
    c.fullscreen = true;
    assert_eq!(dispatch(Action::Move(Direction::Up), &c), Command::Nothing);
    assert_eq!(dispatch(Action::SwapWindow, &c), Command::Nothing);
}

#[test]
fn resizing_enters_resize_mode() {
    let c = ctx(vec![out(1, 0, 1)], 1);
    let mut modal = ModalState::new();
    let r = handle_action(&mut modal, &Action::Resizing(ResizeDirection::Inwards), PATTERN, None, &c);
    assert_eq!(r, Command::SetResizeMode(ResizeMode::Started(PATTERN, ResizeDirection::Inwards)));
    assert_eq!(modal.resize, ResizeMode::Started(PATTERN, ResizeDirection::Inwards));
    let step = Action::_ResizingInternal(ResizeDirection::Inwards, ResizeEdge::Top, KeyState::Pressed);
    assert_eq!(dispatch(step, &c), Command::ResizeStep(ResizeDirection::Inwards, ResizeEdge::Top));
    let done = Action::_ResizingInternal(ResizeDirection::Inwards, ResizeEdge::Top, KeyState::Released);
    assert_eq!(dispatch(done, &c), Command::FinishResize(ResizeDirection::Inwards, ResizeEdge::Top));
}

#[test]
fn simple_actions() {
    let c = ctx(vec![out(1, 0, 1)], 1);
    assert_eq!(dispatch(Action::Terminate, &c), Command::Stop);
    assert_eq!(dispatch(Action::Debug, &c), Command::ToggleDebug);
    assert_eq!(dispatch(Action::Close, &c), Command::CloseFocused);
    assert_eq!(dispatch(Action::Maximize, &c), Command::ToggleMaximize);
    assert_eq!(dispatch(Action::ToggleOrientation, &c), Command::ToggleOrientation);
    assert_eq!(
        dispatch(Action::Orientation(Orientation::Vertical), &c),
        Command::SetOrientation(Orientation::Vertical)
    );
    assert_eq!(dispatch(Action::ToggleStacking, &c), Command::ToggleStacking);
    assert_eq!(dispatch(Action::ToggleTiling, &c), Command::ToggleTiling);
    assert_eq!(dispatch(Action::ToggleWindowFloating, &c), Command::ToggleWindowFloating);
    assert_eq!(
        dispatch(Action::Spawn(String::from("foot")), &c),
        Command::Spawn(String::from("foot"))
    );
}

#[test]
fn focus_carries_the_swap_node() {
    let c = ctx(vec![out(1, 0, 1)], 1);
    let mut modal = ModalState::new();
    let desc = NodeDesc { workspace: 3, node: 4 };
    modal.overview = OverviewMode::Started(Trigger::KeyboardSwap(PATTERN, desc));
    let r = handle_action(&mut modal, &Action::Focus(FocusDirection::Left), PATTERN, None, &c);
    assert_eq!(r, Command::FocusNext { towards: FocusDirection::Left, swap_with: Some(desc) });
    assert_eq!(
        dispatch(Action::Focus(FocusDirection::In), &c),
        Command::FocusNext { towards: FocusDirection::In, swap_with: None }
    );
}

#[test]
fn fallbacks_follow_the_layout() {
    assert_eq!(focus_fallback(FocusDirection::Left, WorkspaceLayout::Horizontal), Some(Action::PreviousWorkspace));
    assert_eq!(focus_fallback(FocusDirection::Down, WorkspaceLayout::Horizontal), Some(Action::NextOutput));
    assert_eq!(focus_fallback(FocusDirection::Down, WorkspaceLayout::Vertical), Some(Action::NextWorkspace));
    assert_eq!(focus_fallback(FocusDirection::Left, WorkspaceLayout::Vertical), Some(Action::PreviousOutput));
    assert_eq!(focus_fallback(FocusDirection::Out, WorkspaceLayout::Vertical), None);
    assert_eq!(move_fallback(Direction::Right, WorkspaceLayout::Horizontal), Action::MoveToNextWorkspace);
    assert_eq!(move_fallback(Direction::Up, WorkspaceLayout::Horizontal), Action::MoveToPreviousOutput);
    assert_eq!(move_fallback(Direction::Up, WorkspaceLayout::Vertical), Action::MoveToPreviousWorkspace);
    assert_eq!(move_fallback(Direction::Right, WorkspaceLayout::Vertical), Action::MoveToNextOutput);
}

#[test]
fn stuck_tiled_move_starts_move_overview() {
    let mut modal = ModalState::new();
    let r = after_move(&mut modal, MoveOutcome::Stayed, Direction::Left, WorkspaceLayout::Horizontal, false, PATTERN);
    assert_eq!(r, MoveFollowUp::Nothing);
    assert_eq!(modal.overview, OverviewMode::Inactive);
    let r = after_move(&mut modal, MoveOutcome::MoveFurther, Direction::Left, WorkspaceLayout::Horizontal, true, PATTERN);
    assert_eq!(r, MoveFollowUp::Run(Action::MoveToPreviousWorkspace));
    assert_eq!(modal.overview, OverviewMode::Inactive);
    let r = after_move(&mut modal, MoveOutcome::ShiftFocus, Direction::Left, WorkspaceLayout::Horizontal, true, PATTERN);
    assert_eq!(r, MoveFollowUp::FocusShifted);
    let r = after_move(&mut modal, MoveOutcome::Stayed, Direction::Left, WorkspaceLayout::Horizontal, true, PATTERN);
    assert_eq!(r, MoveFollowUp::MoveOverviewStarted);
    assert_eq!(modal.overview, OverviewMode::Started(Trigger::KeyboardMove(SUPER)));
}

#[test]
fn swap_start_and_plan() {
    let mut modal = ModalState::new();
    let from = NodeDesc { workspace: 1, node: 10 };
    start_swap(&mut modal, PATTERN, from);
    assert_eq!(modal.overview, OverviewMode::Started(Trigger::KeyboardSwap(PATTERN, from)));
    let other = NodeDesc { workspace: 2, node: 20 };
    let same = NodeDesc { workspace: 1, node: 11 };
    assert_eq!(swap_plan(from, Some(Some(other)), 2, false), SwapPlan::Across { from, to: other });
    assert_eq!(swap_plan(from, Some(Some(same)), 1, false), SwapPlan::Within { from, to: same });
    assert_eq!(swap_plan(from, Some(None), 2, true), SwapPlan::Nothing);
    assert_eq!(swap_plan(from, None, 2, true), SwapPlan::MoveTree { from, to: 2 });
    assert_eq!(swap_plan(from, None, 2, false), SwapPlan::Nothing);
    assert_eq!(swap_plan(from, None, 1, true), SwapPlan::Nothing);
}

#[test]
fn duplicate_is_equal() {
    let a = Action::Spawn(String::from("x y"));
    assert_eq!(a.duplicate(), a);
    let b = Action::_ResizingInternal(ResizeDirection::Outwards, ResizeEdge::Left, KeyState::Released);
    assert_eq!(b.duplicate(), b);
}

#[test]
fn failed_activation_runs_the_fallback() {
    let fallback = Some(Action::NextOutput);
    assert_eq!(
        after_activate(&fallback, Err(())),
        FollowUp { set_active: None, motion_to: None, run: Some(Action::NextOutput) }
    );
    assert_eq!(
        after_activate(&fallback, Ok(Some(Loc { x: 1, y: 2 }))),
        FollowUp { set_active: None, motion_to: None, run: None }
    );
    assert_eq!(after_activate(&None, Err(())), FollowUp { set_active: None, motion_to: None, run: None });
}

#[test]
fn output_becomes_active_only_on_success() {
    let p = Loc { x: 2880, y: 540 };
    assert_eq!(
        after_switch(OutputId(2), Ok(Some(p))),
        FollowUp { set_active: Some(OutputId(2)), motion_to: Some(p), run: None }
    );
    assert_eq!(
        after_switch(OutputId(2), Ok(None)),
        FollowUp { set_active: Some(OutputId(2)), motion_to: None, run: None }
    );
    assert_eq!(after_switch(OutputId(2), Err(())), FollowUp { set_active: None, motion_to: None, run: None });
}

#[test]
fn window_moves_follow_up() {
    let p = Loc { x: 10, y: 20 };
    assert_eq!(
        after_move_window(None, &None, Ok(Some(p))),
        FollowUp { set_active: None, motion_to: Some(p), run: None }
    );
    assert_eq!(
        after_move_window(Some(3), &Some(Action::MoveToNextOutput), Ok(Some(p))),
        FollowUp { set_active: None, motion_to: None, run: None }
    );
    assert_eq!(
        after_move_window(Some(3), &Some(Action::MoveToNextOutput), Err(())),
        FollowUp { set_active: None, motion_to: None, run: Some(Action::MoveToNextOutput) }
    );
}
