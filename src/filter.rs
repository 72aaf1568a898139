//! The keyboard filter: one decision per key event, taken against the modal
//! state, the suppressed keys of the seat and the configured key bindings.
use vstd::prelude::*;
use calloop::RegistrationToken;
use crate::action::{edge_of_sym, flipped, resize_edge_for, Action, ResizeDirection, ResizeEdge};
use crate::keys::{
    contains_sym, lost_modifier, KeyEvent, KeyPattern, KeyState, KEY_SWITCH_VT_1,
    KEY_SWITCH_VT_12,
};
use crate::modal::{ModalState, NodeDesc, OverviewMode, ResizeMode, Trigger};
use crate::suppressed::{
    has_code, lemma_no_code, tokens_of, without_code, Suppression, SupressedKeys,
};

verus! {

/// What happens to the key event itself.
#[derive(Clone, Debug, PartialEq, Eq)]
pub enum FilterResult {
    /// The event goes on to the focused client.
    Forward,
    /// The event is kept from clients, and the action, if any, runs.
    Intercept(Option<(Action, KeyPattern)>),
}

/// Everything that one key event decides.
pub struct KeyOutcome {
    pub result: FilterResult,
    /// The keyboard-driven overview ended on this event.
    pub overview_ended: bool,
    /// The window swap that ended on this event, from this node; the shell
    /// swaps it with the focused node.
    pub swap_commit: Option<NodeDesc>,
    /// The resize mode that this event set.
    pub resize_update: Option<ResizeMode>,
    /// Repeat timers to remove from the event loop.
    pub cancel: Vec<RegistrationToken>,
    /// The virtual terminal to switch to.
    pub switch_vt: Option<u32>,
    /// A repeat timer is wanted for the intercepted action; its token is then
    /// given to the suppression of this key.
    pub start_repeat: bool,
}

/// The bindings, in the order they are tried.
pub type Bindings = Seq<(KeyPattern, Action)>;

/// Whether the event ends the keyboard-driven overview `ov`.
pub open spec fn ends_overview(ov: OverviewMode, ev: KeyEvent) -> bool {
    match ov {
        OverviewMode::Started(Trigger::KeyboardMove(m)) => lost_modifier(m, ev.modifiers),
        OverviewMode::Started(Trigger::KeyboardSwap(p, _)) => lost_modifier(
            p.modifiers,
            ev.modifiers,
        ) || (ev.state == KeyState::Released && ev.raw_syms@.contains(p.key)),
        _ => false,
    }
}

/// The overview after the event.
pub open spec fn overview_after(ov: OverviewMode, ev: KeyEvent) -> OverviewMode {
    if ends_overview(ov, ev) {
        OverviewMode::Inactive
    } else {
        ov
    }
}

/// The node whose swap the event commits.
pub open spec fn swap_commit_of(ov: OverviewMode, ev: KeyEvent) -> Option<NodeDesc> {
    match ov {
        OverviewMode::Started(Trigger::KeyboardSwap(_, d)) => if ends_overview(ov, ev) {
            Some(d)
        } else {
            None
        },
        _ => None,
    }
}

/// The direction of the first binding from index `i` on that is `q` and
/// starts a resize.
pub open spec fn find_resizing_from(b: Bindings, q: KeyPattern, i: int) -> Option<
    ResizeDirection,
>
    decreases b.len() - i,
{
    if i < 0 || i >= b.len() {
        None
    } else if b[i].0 == q && b[i].1 is Resizing {
        Some(b[i].1->Resizing_0)
    } else {
        find_resizing_from(b, q, i + 1)
    }
}

/// The resize mode that the event sets, if it sets one.
pub open spec fn resize_update_of(rm: ResizeMode, ev: KeyEvent, b: Bindings) -> Option<ResizeMode> {
    match rm {
        ResizeMode::Inactive => None,
        ResizeMode::Started(p, _) => if ev.state == KeyState::Released && ev.raw_syms@.contains(
            p.key,
        ) {
            Some(ResizeMode::Inactive)
        } else if p.modifiers != ev.modifiers {
            let q = KeyPattern { modifiers: ev.modifiers, key: p.key };
            Some(
                match find_resizing_from(b, q, 0) {
                    Some(d) => ResizeMode::Started(q, d),
                    None => ResizeMode::Inactive,
                },
            )
        } else {
            None
        },
    }
}

/// The resize mode after the event.
pub open spec fn resize_after(rm: ResizeMode, ev: KeyEvent, b: Bindings) -> ResizeMode {
    match resize_update_of(rm, ev, b) {
        Some(m) => m,
        None => rm,
    }
}

/// The index of the first binding from index `i` on whose modifiers are
/// exactly those held and whose key is among the event's keysyms.
pub open spec fn find_shortcut_from(b: Bindings, ev: KeyEvent, i: int) -> Option<int>
    decreases b.len() - i,
{
    if i < 0 || i >= b.len() {
        None
    } else if b[i].0.modifiers == ev.modifiers && ev.raw_syms@.contains(b[i].0.key) {
        Some(i)
    } else {
        find_shortcut_from(b, ev, i + 1)
    }
}

pub open spec fn is_vt_sym(sym: u32) -> bool {
    KEY_SWITCH_VT_1 <= sym <= KEY_SWITCH_VT_12
}

/// The rule that decides a key event, the earliest that applies.
pub enum KeyRule {
    /// An arrow or vi-style key while resizing: a resize step on this edge.
    ResizeKey(ResizeDirection, ResizeEdge),
    /// The release of a key whose press was consumed.
    ReleaseSuppressed,
    /// A press of a virtual terminal key.
    SwitchVt,
    /// A press that matches the binding at this index.
    Shortcut(int),
    Forward,
}

/// The rule for the event, given the resize mode that the event left.
pub open spec fn key_rule(
    rm: ResizeMode,
    s: Seq<Suppression>,
    b: Bindings,
    ev: KeyEvent,
    inhibited: bool,
) -> KeyRule {
    let rest = if ev.state == KeyState::Released && has_code(s, ev.code) {
        KeyRule::ReleaseSuppressed
    } else if ev.state == KeyState::Pressed && is_vt_sym(ev.modified_sym) {
        KeyRule::SwitchVt
    } else if !inhibited && ev.state == KeyState::Pressed && find_shortcut_from(b, ev, 0) is Some {
        KeyRule::Shortcut(find_shortcut_from(b, ev, 0)->0)
    } else {
        KeyRule::Forward
    };
    match rm {
        ResizeMode::Started(_, d) => match edge_of_sym(ev.modified_sym) {
            Some(e) => KeyRule::ResizeKey(
                d,
                if d == ResizeDirection::Inwards {
                    flipped(e)
                } else {
                    e
                },
            ),
            None => rest,
        },
        ResizeMode::Inactive => rest,
    }
}

/// The suppressions after the rule ran.
pub open spec fn suppressed_after(rule: KeyRule, s: Seq<Suppression>, ev: KeyEvent) -> Seq<
    Suppression,
> {
    match rule {
        KeyRule::ResizeKey(_, _) => if ev.state == KeyState::Released {
            without_code(s, ev.code)
        } else {
            s.push((ev.code, None))
        },
        KeyRule::ReleaseSuppressed => without_code(s, ev.code),
        KeyRule::SwitchVt => s.push((ev.code, None)),
        KeyRule::Shortcut(_) => s.push((ev.code, None)),
        KeyRule::Forward => s,
    }
}

/// The repeat timers that the rule cancels.
pub open spec fn cancelled_by(rule: KeyRule, s: Seq<Suppression>, ev: KeyEvent) -> Seq<
    RegistrationToken,
> {
    match rule {
        KeyRule::ResizeKey(_, _) => if ev.state == KeyState::Released {
            tokens_of(s, ev.code)
        } else {
            Seq::empty()
        },
        KeyRule::ReleaseSuppressed => tokens_of(s, ev.code),
        _ => Seq::empty(),
    }
}

/// What the rule does with the event.
pub open spec fn result_of(rule: KeyRule, b: Bindings, ev: KeyEvent) -> FilterResult {
    match rule {
        KeyRule::ResizeKey(d, e) => FilterResult::Intercept(
            Some(
                (
                    Action::_ResizingInternal(d, e, ev.state),
                    KeyPattern { modifiers: ev.modifiers, key: ev.code },
                ),
            ),
        ),
        KeyRule::ReleaseSuppressed => FilterResult::Intercept(None),
        KeyRule::SwitchVt => FilterResult::Intercept(None),
        KeyRule::Shortcut(i) => FilterResult::Intercept(Some((b[i].1, b[i].0))),
        KeyRule::Forward => FilterResult::Forward,
    }
}

/// The virtual terminal that the rule switches to, counted from one.
pub open spec fn vt_of(rule: KeyRule, ev: KeyEvent) -> Option<u32> {
    match rule {
        KeyRule::SwitchVt => Some((ev.modified_sym - KEY_SWITCH_VT_1 + 1) as u32),
        _ => None,
    }
}

/// The direction of the first binding that is `q` and starts a resize.
fn find_resizing(bindings: &Vec<(KeyPattern, Action)>, q: KeyPattern) -> (r: Option<
    ResizeDirection,
>)
    ensures
        r == find_resizing_from(bindings@, q, 0),
{
    let mut i: usize = 0;
    while i < bindings.len()
        invariant
            i <= bindings@.len(),
            find_resizing_from(bindings@, q, 0) == find_resizing_from(bindings@, q, i as int),
        decreases bindings@.len() - i,
    {
        if bindings[i].0 == q {
            if let Action::Resizing(d) = &bindings[i].1 {
                return Some(*d);
            }
        }
        i = i + 1;
    }
    None
}

/// The index of the first binding that the event matches.
fn find_shortcut(bindings: &Vec<(KeyPattern, Action)>, event: &KeyEvent) -> (r: Option<usize>)
    ensures
        match r {
            Some(i) => find_shortcut_from(bindings@, *event, 0) == Some(i as int) && i
                < bindings@.len(),
            None => find_shortcut_from(bindings@, *event, 0) is None,
        },
{
    let mut i: usize = 0;
    while i < bindings.len()
        invariant
            i <= bindings@.len(),
            find_shortcut_from(bindings@, *event, 0) == find_shortcut_from(
                bindings@,
                *event,
                i as int,
            ),
        decreases bindings@.len() - i,
    {
        let p = bindings[i].0;
        if p.modifiers == event.modifiers && contains_sym(&event.raw_syms, p.key) {
            return Some(i);
        }
        i = i + 1;
    }
    None
}

/// Decides one key event.
///
/// In this order: a keyboard-driven overview ends when one of its modifiers
/// is let go (and a swap also when its key is released); a resize mode ends
/// when its key is released, or follows a change of modifiers to the resize
/// binding that now matches; while resizing, the arrow and vi-style keys
/// become resize steps; the release of a consumed press is kept from
/// clients; a virtual terminal key switches terminals; the first matching
/// binding runs, unless the focused surface inhibits shortcuts; anything else
/// goes to the client. Every press that is kept from clients is recorded in
/// `suppressed`.
pub fn filter_key(
    modal: &mut ModalState,
    suppressed: &mut SupressedKeys,
    bindings: &Vec<(KeyPattern, Action)>,
    event: &KeyEvent,
    shortcuts_inhibited: bool,
    needs_key_repetition: bool,
) -> (out: KeyOutcome)
    ensures
        final(modal).overview == overview_after(old(modal).overview, *event),
        final(modal).overview == crate::laws::overview_step(
            old(modal).overview,
            crate::laws::ModalStep::Key(*event),
        ),
        out.overview_ended == ends_overview(old(modal).overview, *event),
        out.swap_commit == swap_commit_of(old(modal).overview, *event),
        out.resize_update == resize_update_of(old(modal).resize, *event, bindings@),
        final(modal).resize == resize_after(old(modal).resize, *event, bindings@),
        ({
            let rule = key_rule(
                final(modal).resize,
                old(suppressed)@,
                bindings@,
                *event,
                shortcuts_inhibited,
            );
            &&& final(suppressed)@ == suppressed_after(rule, old(suppressed)@, *event)
            &&& out.cancel@ == cancelled_by(rule, old(suppressed)@, *event)
            &&& out.result == result_of(rule, bindings@, *event)
            &&& out.switch_vt == vt_of(rule, *event)
            &&& out.start_repeat == (rule is ResizeKey && event.state == KeyState::Pressed
                && needs_key_repetition)
        }),
{
    let mut overview_ended = false;
    let mut swap_commit: Option<NodeDesc> = None;
    match modal.overview {
        OverviewMode::Started(Trigger::KeyboardMove(m)) => {
            if m.lost_in(&event.modifiers) {
                modal.overview = OverviewMode::Inactive;
                overview_ended = true;
            }
        },
        OverviewMode::Started(Trigger::KeyboardSwap(p, d)) => {
            if p.modifiers.lost_in(&event.modifiers) || (event.state == KeyState::Released
                && contains_sym(&event.raw_syms, p.key)) {
                modal.overview = OverviewMode::Inactive;
                overview_ended = true;
                swap_commit = Some(d);
            }
        },
        _ => {},
    }

    let mut resize_update: Option<ResizeMode> = None;
    if let ResizeMode::Started(p, _) = modal.resize {
        if event.state == KeyState::Released && contains_sym(&event.raw_syms, p.key) {
            resize_update = Some(ResizeMode::Inactive);
        } else if p.modifiers != event.modifiers {
            let q = KeyPattern { modifiers: event.modifiers, key: p.key };
            resize_update = Some(
                match find_resizing(bindings, q) {
                    Some(d) => ResizeMode::Started(q, d),
                    None => ResizeMode::Inactive,
                },
            );
        }
    }
    if let Some(m) = resize_update {
        modal.resize = m;
    }

    proof {
        if !has_code(old(suppressed)@, event.code) {
            lemma_no_code(old(suppressed)@, event.code);
        }
    }

    if let ResizeMode::Started(_, d) = modal.resize {
        if let Some(e) = resize_edge_for(event.modified_sym) {
            let edge = if d == ResizeDirection::Inwards {
                e.flip_direction()
            } else {
                e
            };
            let action = Action::_ResizingInternal(d, edge, event.state);
            let pattern = KeyPattern { modifiers: event.modifiers, key: event.code };
            let mut cancel: Vec<RegistrationToken> = Vec::new();
            let mut start_repeat = false;
            if event.state == KeyState::Released {
                if let Some(t) = suppressed.filter(event.code) {
                    cancel = t;
                }
            } else {
                suppressed.add(event.code, None);
                start_repeat = needs_key_repetition;
            }
            return KeyOutcome {
                result: FilterResult::Intercept(Some((action, pattern))),
                overview_ended,
                swap_commit,
                resize_update,
                cancel,
                switch_vt: None,
                start_repeat,
            };
        }
    }

    if event.state == KeyState::Released && suppressed.contains(event.code) {
        let cancel = match suppressed.filter(event.code) {
            Some(t) => t,
            None => Vec::new(),
        };
        return KeyOutcome {
            result: FilterResult::Intercept(None),
            overview_ended,
            swap_commit,
            resize_update,
            cancel,
            switch_vt: None,
            start_repeat: false,
        };
    }

    if event.state == KeyState::Pressed && KEY_SWITCH_VT_1 <= event.modified_sym
        && event.modified_sym <= KEY_SWITCH_VT_12 {
        suppressed.add(event.code, None);
        return KeyOutcome {
            result: FilterResult::Intercept(None),
            overview_ended,
            swap_commit,
            resize_update,
            cancel: Vec::new(),
            switch_vt: Some(event.modified_sym - KEY_SWITCH_VT_1 + 1),
            start_repeat: false,
        };
    }

    if !shortcuts_inhibited && event.state == KeyState::Pressed {
        if let Some(i) = find_shortcut(bindings, event) {
            suppressed.add(event.code, None);
            let binding = bindings[i].0;
            let action = bindings[i].1.duplicate();
            return KeyOutcome {
                result: FilterResult::Intercept(Some((action, binding))),
                overview_ended,
                swap_commit,
                resize_update,
                cancel: Vec::new(),
                switch_vt: None,
                start_repeat: false,
            };
        }
    }

    KeyOutcome {
        result: FilterResult::Forward,
        overview_ended,
        swap_commit,
        resize_update,
        cancel: Vec::new(),
        switch_vt: None,
        start_repeat: false,
    }
}

/// Milliseconds from the press of a resize key to its first repeat.
pub const RESIZE_REPEAT_DELAY_MS: u64 = 200;
/// Milliseconds between the later repeats of a held resize key.
pub const RESIZE_REPEAT_INTERVAL_MS: u64 = 25;

/// The timestamp of a repeat `elapsed` milliseconds after an event stamped
/// `time`; timestamps wrap around.
pub open spec fn repeat_time_of(time: u32, elapsed: u64) -> u32 {
    ((time + elapsed) % 0x1_0000_0000) as u32
}

/// The timestamp of a repeat `elapsed_ms` milliseconds after an event
/// stamped `time`.
pub fn repeat_time(time: u32, elapsed_ms: u64) -> (r: u32)
    ensures
        r == repeat_time_of(time, elapsed_ms),
{
    let e = elapsed_ms % 0x1_0000_0000;
    proof {
        vstd::arithmetic::div_mod::lemma_add_mod_noop(
            time as int,
            elapsed_ms as int,
            0x1_0000_0000,
        );
        vstd::arithmetic::div_mod::lemma_mod_twice(time as int, 0x1_0000_0000);
        vstd::arithmetic::div_mod::lemma_small_mod(time as nat, 0x1_0000_0000);
    }
    ((time as u64 + e) % 0x1_0000_0000) as u32
}

} // verus!
