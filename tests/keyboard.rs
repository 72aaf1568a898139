use calloop::timer::{TimeoutAction, Timer};
use calloop::{EventLoop, RegistrationToken};
use cosmic_input::action::{Action, ResizeDirection, ResizeEdge};
use cosmic_input::filter::{filter_key, repeat_time, FilterResult, KeyOutcome};
use cosmic_input::keys::{
    contains_sym, KeyEvent, KeyPattern, KeyState, Modifiers, KEY_LOWER_H, KEY_RIGHT,
    KEY_SWITCH_VT_1, KEY_SWITCH_VT_12,
};
use cosmic_input::modal::{ModalState, NodeDesc, OverviewMode, ResizeMode, Trigger};
use cosmic_input::suppressed::SupressedKeys;
use std::time::Duration;

const NONE: Modifiers = Modifiers { ctrl: false, alt: false, shift: false, logo: false };
const SUPER: Modifiers = Modifiers { ctrl: false, alt: false, shift: false, logo: true };
const CTRL_ALT: Modifiers = Modifiers { ctrl: true, alt: true, shift: false, logo: false };
const SUPER_SHIFT: Modifiers = Modifiers { ctrl: false, alt: false, shift: true, logo: true };

const KEY_Q: u32 = 0x71;
const KEY_G: u32 = 0x67;
const KEY_R: u32 = 0x72;
const KEY_F3: u32 = 0xffc0;

fn event(code: u32, state: KeyState, modifiers: Modifiers, sym: u32) -> KeyEvent {
    KeyEvent { code, state, modifiers, modified_sym: sym, raw_syms: vec![sym] }
}

fn run(
    modal: &mut ModalState,
    keys: &mut SupressedKeys,
    bindings: &Vec<(KeyPattern, Action)>,
    ev: &KeyEvent,
    inhibited: bool,
) -> KeyOutcome {
    filter_key(modal, keys, bindings, ev, inhibited, true)
}

fn timer_token(el: &EventLoop<'static, ()>) -> RegistrationToken {
    el.handle()
        .insert_source(Timer::from_duration(Duration::from_secs(3600)), |_, _, _| {
            TimeoutAction::Drop
        })
        .unwrap()
}

#[test]
fn vt_switch_is_suppressed_until_release() {
    let bindings = vec![(KeyPattern { modifiers: CTRL_ALT, key: KEY_F3 }, Action::Close)];
    let mut modal = ModalState::new();
    let mut keys = SupressedKeys::new();
    let vt3 = KEY_SWITCH_VT_1 + 2;
    let out = run(&mut modal, &mut keys, &bindings, &event(61, KeyState::Pressed, CTRL_ALT, vt3), false);
    assert_eq!(out.switch_vt, Some(3));
    assert_eq!(out.result, FilterResult::Intercept(None));
    assert!(keys.contains(61));
    let out = run(&mut modal, &mut keys, &bindings, &event(61, KeyState::Released, CTRL_ALT, vt3), false);
    assert_eq!(out.result, FilterResult::Intercept(None));
    assert_eq!(out.switch_vt, None);
    assert!(!keys.contains(61));
}

#[test]
fn vt_range_ends_at_twelve() {
    let bindings = Vec::new();
    let mut modal = ModalState::new();
    let mut keys = SupressedKeys::new();
    let out = run(&mut modal, &mut keys, &bindings, &event(70, KeyState::Pressed, CTRL_ALT, KEY_SWITCH_VT_12), false);
    assert_eq!(out.switch_vt, Some(12));
    let out = run(&mut modal, &mut keys, &bindings, &event(71, KeyState::Pressed, CTRL_ALT, KEY_SWITCH_VT_12 + 1), false);
    assert_eq!(out.switch_vt, None);
    assert_eq!(out.result, FilterResult::Forward);
}

#[test]
fn resize_key_repeats_and_release_cancels_timer() {
    let el: EventLoop<'static, ()> = EventLoop::try_new().unwrap();
    let pattern = KeyPattern { modifiers: SUPER, key: KEY_R };
    let bindings = vec![(pattern, Action::Resizing(ResizeDirection::Outwards))];
    let mut modal = ModalState::new();
    modal.resize = ResizeMode::Started(pattern, ResizeDirection::Outwards);
    let mut keys = SupressedKeys::new();
    let press = event(114, KeyState::Pressed, SUPER, KEY_RIGHT);
    let out = run(&mut modal, &mut keys, &bindings, &press, false);
    assert_eq!(
        out.result,
        FilterResult::Intercept(Some((
            Action::_ResizingInternal(ResizeDirection::Outwards, ResizeEdge::Right, KeyState::Pressed),
            KeyPattern { modifiers: SUPER, key: 114 },
        )))
    );
    assert!(out.start_repeat);
    let token = timer_token(&el);
    keys.set_token(114, token);
    let release = event(114, KeyState::Released, SUPER, KEY_RIGHT);
    let out = run(&mut modal, &mut keys, &bindings, &release, false);
    assert_eq!(
        out.result,
        FilterResult::Intercept(Some((
            Action::_ResizingInternal(ResizeDirection::Outwards, ResizeEdge::Right, KeyState::Released),
            KeyPattern { modifiers: SUPER, key: 114 },
        )))
    );
    assert_eq!(out.cancel, vec![token]);
    assert!(!out.start_repeat);
    assert!(!keys.contains(114));
}

#[test]
fn resize_without_repetition_asks_for_no_timer() {
    let pattern = KeyPattern { modifiers: SUPER, key: KEY_R };
    let bindings = vec![(pattern, Action::Resizing(ResizeDirection::Outwards))];
    let mut modal = ModalState::new();
    modal.resize = ResizeMode::Started(pattern, ResizeDirection::Outwards);
    let mut keys = SupressedKeys::new();
    let press = event(114, KeyState::Pressed, SUPER, KEY_RIGHT);
    let out = filter_key(&mut modal, &mut keys, &bindings, &press, false, false);
    assert!(!out.start_repeat);
    assert!(keys.contains(114));
}

#[test]
fn shrinking_flips_the_edge() {
    let pattern = KeyPattern { modifiers: SUPER, key: KEY_R };
    let bindings = vec![(pattern, Action::Resizing(ResizeDirection::Inwards))];
    let mut modal = ModalState::new();
    modal.resize = ResizeMode::Started(pattern, ResizeDirection::Inwards);
    let mut keys = SupressedKeys::new();
    let out = run(&mut modal, &mut keys, &bindings, &event(43, KeyState::Pressed, SUPER, KEY_LOWER_H), false);
    assert_eq!(
        out.result,
        FilterResult::Intercept(Some((
            Action::_ResizingInternal(ResizeDirection::Inwards, ResizeEdge::Right, KeyState::Pressed),
            KeyPattern { modifiers: SUPER, key: 43 },
        )))
    );
}

#[test]
fn resize_mode_follows_modifiers_and_ends_on_release() {
    let pattern = KeyPattern { modifiers: SUPER, key: KEY_R };
    let shrink = KeyPattern { modifiers: SUPER_SHIFT, key: KEY_R };
    let bindings = vec![
        (pattern, Action::Resizing(ResizeDirection::Outwards)),
        (shrink, Action::Resizing(ResizeDirection::Inwards)),
    ];
    let mut modal = ModalState::new();
    modal.resize = ResizeMode::Started(pattern, ResizeDirection::Outwards);
    let mut keys = SupressedKeys::new();
    let shift = event(50, KeyState::Pressed, SUPER_SHIFT, 0xffe1);
    let out = run(&mut modal, &mut keys, &bindings, &shift, false);
    assert_eq!(out.resize_update, Some(ResizeMode::Started(shrink, ResizeDirection::Inwards)));
    assert_eq!(modal.resize, ResizeMode::Started(shrink, ResizeDirection::Inwards));
    let ctrl = event(37, KeyState::Pressed, CTRL_ALT, 0xffe3);
    let out = run(&mut modal, &mut keys, &bindings, &ctrl, false);
    assert_eq!(out.resize_update, Some(ResizeMode::Inactive));
    assert_eq!(modal.resize, ResizeMode::Inactive);
    modal.resize = ResizeMode::Started(pattern, ResizeDirection::Outwards);
    let release = event(27, KeyState::Released, SUPER, KEY_R);
    let out = run(&mut modal, &mut keys, &bindings, &release, false);
    assert_eq!(out.resize_update, Some(ResizeMode::Inactive));
    assert_eq!(out.result, FilterResult::Forward);
}

#[test]
fn inhibited_shortcut_reaches_the_client() {
    let bindings = vec![(KeyPattern { modifiers: SUPER, key: KEY_Q }, Action::Close)];
    let mut modal = ModalState::new();
    let mut keys = SupressedKeys::new();
    let press = event(24, KeyState::Pressed, SUPER, KEY_Q);
    let out = run(&mut modal, &mut keys, &bindings, &press, true);
    assert_eq!(out.result, FilterResult::Forward);
    assert!(!keys.contains(24));
    let out = run(&mut modal, &mut keys, &bindings, &press, false);
    assert_eq!(
        out.result,
        FilterResult::Intercept(Some((Action::Close, KeyPattern { modifiers: SUPER, key: KEY_Q })))
    );
    assert!(keys.contains(24));
}

#[test]
fn first_matching_binding_wins_and_modifiers_must_be_exact() {
    let bindings = vec![
        (KeyPattern { modifiers: SUPER_SHIFT, key: KEY_Q }, Action::Terminate),
        (KeyPattern { modifiers: SUPER, key: KEY_Q }, Action::Spawn(String::from("a"))),
        (KeyPattern { modifiers: SUPER, key: KEY_Q }, Action::Close),
    ];
    let mut modal = ModalState::new();
    let mut keys = SupressedKeys::new();
    let out = run(&mut modal, &mut keys, &bindings, &event(24, KeyState::Pressed, SUPER, KEY_Q), false);
    assert_eq!(
        out.result,
        FilterResult::Intercept(Some((
            Action::Spawn(String::from("a")),
            KeyPattern { modifiers: SUPER, key: KEY_Q },
        )))
    );
    let out = run(&mut modal, &mut keys, &bindings, &event(24, KeyState::Pressed, NONE, KEY_Q), false);
    assert_eq!(out.result, FilterResult::Forward);
}

#[test]
fn consumed_press_hides_release_after_other_keys() {
    let bindings = vec![(KeyPattern { modifiers: SUPER, key: KEY_Q }, Action::Close)];
    let mut modal = ModalState::new();
    let mut keys = SupressedKeys::new();
    run(&mut modal, &mut keys, &bindings, &event(24, KeyState::Pressed, SUPER, KEY_Q), false);
    let out = run(&mut modal, &mut keys, &bindings, &event(38, KeyState::Pressed, SUPER, 0x61), false);
    assert_eq!(out.result, FilterResult::Forward);
    run(&mut modal, &mut keys, &bindings, &event(38, KeyState::Released, SUPER, 0x61), false);
    let out = run(&mut modal, &mut keys, &bindings, &event(24, KeyState::Released, NONE, KEY_Q), false);
    assert_eq!(out.result, FilterResult::Intercept(None));
    assert!(out.cancel.is_empty());
}

#[test]
fn nothing_stays_suppressed_once_all_keys_are_up() {
    let bindings = vec![
        (KeyPattern { modifiers: SUPER, key: KEY_Q }, Action::Close),
        (KeyPattern { modifiers: SUPER, key: KEY_G }, Action::SwapWindow),
    ];
    let mut modal = ModalState::new();
    let mut keys = SupressedKeys::new();
    let evs = [
        event(24, KeyState::Pressed, SUPER, KEY_Q),
        event(42, KeyState::Pressed, SUPER, KEY_G),
        event(61, KeyState::Pressed, CTRL_ALT, KEY_SWITCH_VT_1),
        event(24, KeyState::Released, SUPER, KEY_Q),
        event(61, KeyState::Released, NONE, KEY_SWITCH_VT_1),
        event(42, KeyState::Released, NONE, KEY_G),
    ];
    for ev in evs.iter() {
        run(&mut modal, &mut keys, &bindings, ev, false);
    }
    assert!(!keys.contains(24) && !keys.contains(42) && !keys.contains(61));
    assert_eq!(keys.filter(24), None);
}

#[test]
fn move_overview_ends_when_a_modifier_is_let_go() {
    let bindings = Vec::new();
    let mut modal = ModalState::new();
    modal.overview = OverviewMode::Started(Trigger::KeyboardMove(SUPER_SHIFT));
    let mut keys = SupressedKeys::new();
    let out = run(&mut modal, &mut keys, &bindings, &event(38, KeyState::Pressed, SUPER_SHIFT, 0x61), false);
    assert!(!out.overview_ended);
    assert_eq!(modal.overview, OverviewMode::Started(Trigger::KeyboardMove(SUPER_SHIFT)));
    let out = run(&mut modal, &mut keys, &bindings, &event(50, KeyState::Released, SUPER, 0xffe1), false);
    assert!(out.overview_ended);
    assert_eq!(out.swap_commit, None);
    assert_eq!(modal.overview, OverviewMode::Inactive);
}

#[test]
fn swap_overview_commits_on_modifier_release() {
    let pattern = KeyPattern { modifiers: SUPER, key: KEY_G };
    let desc = NodeDesc { workspace: 1, node: 7 };
    let bindings = vec![(pattern, Action::SwapWindow)];
    let mut modal = ModalState::new();
    modal.overview = OverviewMode::Started(Trigger::KeyboardSwap(pattern, desc));
    let mut keys = SupressedKeys::new();
    let out = run(&mut modal, &mut keys, &bindings, &event(133, KeyState::Released, NONE, 0xffeb), false);
    assert!(out.overview_ended);
    assert_eq!(out.swap_commit, Some(desc));
    assert_eq!(modal.overview, OverviewMode::Inactive);
}

#[test]
fn swap_overview_commits_on_key_release() {
    let pattern = KeyPattern { modifiers: SUPER, key: KEY_G };
    let desc = NodeDesc { workspace: 1, node: 7 };
    let bindings = Vec::new();
    let mut modal = ModalState::new();
    modal.overview = OverviewMode::Started(Trigger::KeyboardSwap(pattern, desc));
    let mut keys = SupressedKeys::new();
    let out = run(&mut modal, &mut keys, &bindings, &event(38, KeyState::Pressed, SUPER, 0x61), false);
    assert!(!out.overview_ended);
    let out = run(&mut modal, &mut keys, &bindings, &event(42, KeyState::Released, SUPER, KEY_G), false);
    assert_eq!(out.swap_commit, Some(desc));
}

#[test]
fn suppressed_keys_drain_by_code() {
    let el: EventLoop<'static, ()> = EventLoop::try_new().unwrap();
    let t1 = timer_token(&el);
    let t2 = timer_token(&el);
    let mut keys = SupressedKeys::new();
    keys.add(5, Some(t1));
    keys.add(6, None);
    keys.add(5, None);
    keys.add(5, Some(t2));
    assert_eq!(keys.filter(5), Some(vec![t1, t2]));
    assert!(!keys.contains(5));
    assert!(keys.contains(6));
    assert_eq!(keys.filter(6), None);
    assert!(!keys.contains(6));
}

#[test]
fn set_token_keeps_existing_timers() {
    let el: EventLoop<'static, ()> = EventLoop::try_new().unwrap();
    let t1 = timer_token(&el);
    let t2 = timer_token(&el);
    let mut keys = SupressedKeys::new();
    keys.add(5, Some(t1));
    keys.add(5, None);
    keys.set_token(5, t2);
    assert_eq!(keys.filter(5), Some(vec![t1, t2]));
}

#[test]
fn set_token_marks_only_the_last_suppression() {
    let el: EventLoop<'static, ()> = EventLoop::try_new().unwrap();
    let t1 = timer_token(&el);
    let t2 = timer_token(&el);
    let mut keys = SupressedKeys::new();
    keys.add(5, None);
    keys.add(6, None);
    keys.add(5, None);
    keys.set_token(5, t1);
    keys.set_token(5, t2);
    keys.set_token(7, t2);
    assert_eq!(keys.filter(5), Some(vec![t1]));
    assert_eq!(keys.filter(6), None);
}

#[test]
fn release_without_timer_is_still_kept_from_clients() {
    let bindings = vec![(KeyPattern { modifiers: SUPER, key: KEY_Q }, Action::Close)];
    let mut modal = ModalState::new();
    let mut keys = SupressedKeys::new();
    run(&mut modal, &mut keys, &bindings, &event(24, KeyState::Pressed, SUPER, KEY_Q), false);
    let out = run(&mut modal, &mut keys, &bindings, &event(24, KeyState::Released, SUPER, KEY_Q), false);
    assert_eq!(out.result, FilterResult::Intercept(None));
    assert!(out.cancel.is_empty());
}

#[test]
fn sym_lookup() {
    assert!(contains_sym(&vec![1, 2, 3], 2));
    assert!(!contains_sym(&vec![], 2));
}

#[test]
fn repeat_timestamps_wrap() {
    assert_eq!(repeat_time(100, 200), 300);
    assert_eq!(repeat_time(u32::MAX, 2), 1);
    assert_eq!(repeat_time(5, 1u64 << 32), 5);
}
