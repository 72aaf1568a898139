//! What holds of the keyboard filter over whole runs of key events.
use vstd::prelude::*;
use calloop::RegistrationToken;
use crate::filter::{
    cancelled_by, ends_overview, key_rule, overview_after, resize_after, result_of,
    suppressed_after, Bindings, FilterResult, KeyRule,
};
use crate::keys::{lost_modifier, KeyEvent, KeyState};
use crate::action::Action;
use crate::dispatch::{MoveOutcome, OutputId};
use crate::keys::KeyPattern;
use crate::modal::NodeDesc;
use crate::modal::{ModalState, OverviewMode, Trigger};
use crate::pointer::{
    clamped, enter_of, info_of, leave_of, motion_effects_of, moved, output_at, OutputGeometry,
    Point, PointerEffect,
};
use crate::suppressed::{
    has_code, lemma_no_code, lemma_without_code, tokens_of, with_token, without_code, Suppression,
};

verus! {

/// The modal state and the suppressions after one key event, as
/// `filter::filter_key` leaves them.
pub open spec fn key_step(
    m: ModalState,
    s: Seq<Suppression>,
    b: Bindings,
    ev: KeyEvent,
    inhibited: bool,
) -> (ModalState, Seq<Suppression>) {
    let m2 = ModalState {
        overview: overview_after(m.overview, ev),
        resize: resize_after(m.resize, ev, b),
    };
    (m2, suppressed_after(key_rule(m2.resize, s, b, ev, inhibited), s, ev))
}

/// The rule that decides the event in the state `(m, s)`.
pub open spec fn rule_at(
    m: ModalState,
    s: Seq<Suppression>,
    b: Bindings,
    ev: KeyEvent,
    inhibited: bool,
) -> KeyRule {
    key_rule(resize_after(m.resize, ev, b), s, b, ev, inhibited)
}

/// The state after a run of key events, each with whether shortcuts were
/// inhibited for it.
pub open spec fn run_keys(
    m: ModalState,
    s: Seq<Suppression>,
    b: Bindings,
    evs: Seq<(KeyEvent, bool)>,
) -> (ModalState, Seq<Suppression>)
    decreases evs.len(),
{
    if evs.len() == 0 {
        (m, s)
    } else {
        let prev = run_keys(m, s, b, evs.drop_last());
        key_step(prev.0, prev.1, b, evs.last().0, evs.last().1)
    }
}

/// The keys held down after a run of events: those whose last event was a
/// press.
pub open spec fn held(evs: Seq<(KeyEvent, bool)>) -> Set<u32>
    decreases evs.len(),
{
    if evs.len() == 0 {
        Set::empty()
    } else if evs.last().0.state == KeyState::Pressed {
        held(evs.drop_last()).insert(evs.last().0.code)
    } else {
        held(evs.drop_last()).remove(evs.last().0.code)
    }
}

/// A press that the filter keeps from clients is recorded as suppressed.
pub proof fn lemma_consumed_press_is_recorded(
    m: ModalState,
    s: Seq<Suppression>,
    b: Bindings,
    ev: KeyEvent,
    inhibited: bool,
)
    requires
        ev.state == KeyState::Pressed,
        result_of(rule_at(m, s, b, ev, inhibited), b, ev) is Intercept,
    ensures
        has_code(key_step(m, s, b, ev, inhibited).1, ev.code),
{
    let after = key_step(m, s, b, ev, inhibited).1;
    assert(after[after.len() - 1].0 == ev.code);
}

/// An event of another key neither drops the suppressions of `code` nor
/// touches their timers.
pub proof fn lemma_other_key_keeps_suppression(
    m: ModalState,
    s: Seq<Suppression>,
    b: Bindings,
    ev: KeyEvent,
    inhibited: bool,
    code: u32,
)
    requires
        ev.code != code,
    ensures
        has_code(key_step(m, s, b, ev, inhibited).1, code) == has_code(s, code),
        tokens_of(key_step(m, s, b, ev, inhibited).1, code) == tokens_of(s, code),
{
    lemma_without_code(s, ev.code, code);
    lemma_tokens_of_other(s, ev.code, code);
    let p = s.push((ev.code, None::<RegistrationToken>));
    assert(p.drop_last() == s);
    assert(has_code(p, code) == has_code(s, code)) by {
        if has_code(p, code) {
            let i = choose|i: int| 0 <= i < p.len() && p[i].0 == code;
            assert(s[i].0 == code);
        }
        if has_code(s, code) {
            let i = choose|i: int| 0 <= i < s.len() && s[i].0 == code;
            assert(p[i].0 == code);
        }
    }
}

/// Dropping the suppressions of one code keeps the timers of another.
pub proof fn lemma_tokens_of_other(s: Seq<Suppression>, dropped: u32, code: u32)
    requires
        dropped != code,
    ensures
        tokens_of(without_code(s, dropped), code) == tokens_of(s, code),
    decreases s.len(),
{
    if s.len() > 0 {
        lemma_tokens_of_other(s.drop_last(), dropped, code);
        let w = without_code(s.drop_last(), dropped);
        if s.last().0 != dropped {
            assert(w.push(s.last()).drop_last() == w);
        }
    }
}

/// The release of a key whose press was kept from clients is kept from
/// clients too, ends its suppression and cancels every repeat timer of it.
pub proof fn lemma_release_of_suppressed_key(
    m: ModalState,
    s: Seq<Suppression>,
    b: Bindings,
    ev: KeyEvent,
    inhibited: bool,
)
    requires
        ev.state == KeyState::Released,
        has_code(s, ev.code),
    ensures
        result_of(rule_at(m, s, b, ev, inhibited), b, ev) is Intercept,
        cancelled_by(rule_at(m, s, b, ev, inhibited), s, ev) == tokens_of(s, ev.code),
        !has_code(key_step(m, s, b, ev, inhibited).1, ev.code),
{
    lemma_without_code(s, ev.code, ev.code);
}

/// A repeat timer given to the suppression of a key is among the timers that
/// the key's release cancels.
pub proof fn lemma_set_token_is_cancelled(s: Seq<Suppression>, code: u32, token: RegistrationToken)
    requires
        s.len() > 0,
        s.last() == (code, None::<RegistrationToken>),
    ensures
        tokens_of(with_token(s, code, token), code).contains(token),
{
    let w = with_token(s, code, token);
    assert(w.last() == (code, Some(token)));
    let t = tokens_of(w, code);
    assert(t[t.len() - 1] == token);
}

/// A press that the filter keeps from clients is followed by events of other
/// keys only, then by the release of that key: the release is kept from
/// clients as well, and it cancels every repeat timer of the key, those
/// attached when the press was recorded included.
pub proof fn law_consumed_press_hides_its_release(
    m: ModalState,
    s: Seq<Suppression>,
    b: Bindings,
    press: (KeyEvent, bool),
    between: Seq<(KeyEvent, bool)>,
    release: (KeyEvent, bool),
)
    requires
        press.0.state == KeyState::Pressed,
        result_of(rule_at(m, s, b, press.0, press.1), b, press.0) is Intercept,
        forall|i: int| 0 <= i < between.len() ==> #[trigger] between[i].0.code != press.0.code,
        release.0.state == KeyState::Released,
        release.0.code == press.0.code,
    ensures
        ({
            let after_press = key_step(m, s, b, press.0, press.1);
            let before = run_keys(after_press.0, after_press.1, b, between);
            let rule = rule_at(before.0, before.1, b, release.0, release.1);
            &&& result_of(rule, b, release.0) is Intercept
            &&& cancelled_by(rule, before.1, release.0) == tokens_of(before.1, press.0.code)
            &&& tokens_of(before.1, press.0.code) == tokens_of(after_press.1, press.0.code)
            &&& !has_code(key_step(before.0, before.1, b, release.0, release.1).1, press.0.code)
        }),
{
    let after_press = key_step(m, s, b, press.0, press.1);
    lemma_consumed_press_is_recorded(m, s, b, press.0, press.1);
    lemma_run_other_keys(after_press.0, after_press.1, b, between, press.0.code);
    let before = run_keys(after_press.0, after_press.1, b, between);
    lemma_release_of_suppressed_key(before.0, before.1, b, release.0, release.1);
}

/// A run of events of other keys keeps the suppressions of `code` and their
/// timers.
pub proof fn lemma_run_other_keys(
    m: ModalState,
    s: Seq<Suppression>,
    b: Bindings,
    evs: Seq<(KeyEvent, bool)>,
    code: u32,
)
    requires
        forall|i: int| 0 <= i < evs.len() ==> #[trigger] evs[i].0.code != code,
    ensures
        has_code(run_keys(m, s, b, evs).1, code) == has_code(s, code),
        tokens_of(run_keys(m, s, b, evs).1, code) == tokens_of(s, code),
    decreases evs.len(),
{
    if evs.len() > 0 {
        let p = evs.drop_last();
        assert forall|i: int| 0 <= i < p.len() implies #[trigger] p[i].0.code != code by {
            assert(p[i] == evs[i]);
        }
        lemma_run_other_keys(m, s, b, p, code);
        let prev = run_keys(m, s, b, p);
        assert(evs[evs.len() - 1].0.code != code);
        lemma_other_key_keeps_suppression(prev.0, prev.1, b, evs.last().0, evs.last().1, code);
    }
}

/// After one event, every suppressed key is one that was suppressed before
/// and is not the released key, or the pressed key.
pub proof fn lemma_step_suppresses_held(
    m: ModalState,
    s: Seq<Suppression>,
    b: Bindings,
    ev: KeyEvent,
    inhibited: bool,
    code: u32,
)
    ensures
        has_code(key_step(m, s, b, ev, inhibited).1, code) ==> (if ev.state
            == KeyState::Pressed {
            has_code(s, code) || code == ev.code
        } else {
            has_code(s, code) && code != ev.code
        }),
{
    let after = key_step(m, s, b, ev, inhibited).1;
    if has_code(after, code) {
        lemma_without_code(s, ev.code, code);
        if ev.state == KeyState::Released && !has_code(s, ev.code) {
            lemma_no_code(s, ev.code);
        }
        let p = s.push((ev.code, None::<RegistrationToken>));
        if after == p && code != ev.code {
            let i = choose|i: int| 0 <= i < p.len() && p[i].0 == code;
            assert(s[i].0 == code);
        }
    }
}

/// Starting with no suppression, a suppressed key is one still held.
pub proof fn lemma_suppressed_code_is_held(
    m: ModalState,
    b: Bindings,
    evs: Seq<(KeyEvent, bool)>,
    code: u32,
)
    ensures
        has_code(run_keys(m, Seq::empty(), b, evs).1, code) ==> held(evs).contains(code),
    decreases evs.len(),
{
    if evs.len() > 0 {
        let p = evs.drop_last();
        lemma_suppressed_code_is_held(m, b, p, code);
        let prev = run_keys(m, Seq::empty(), b, p);
        lemma_step_suppresses_held(prev.0, prev.1, b, evs.last().0, evs.last().1, code);
    }
}

/// Starting with no suppression, only keys that are still held are ever
/// suppressed: once every pressed key has been released, nothing is.
pub proof fn law_suppressed_keys_are_held(m: ModalState, b: Bindings, evs: Seq<(KeyEvent, bool)>)
    ensures
        forall|code: u32|
            has_code(#[trigger] run_keys(m, Seq::empty(), b, evs).1, code) ==> held(
                evs,
            ).contains(code),
        held(evs) == Set::<u32>::empty() ==> run_keys(m, Seq::empty(), b, evs).1 =~= Seq::<
            Suppression,
        >::empty(),
{
    let r = run_keys(m, Seq::empty(), b, evs).1;
    assert forall|code: u32| has_code(r, code) implies held(evs).contains(code) by {
        lemma_suppressed_code_is_held(m, b, evs, code);
    }
    if held(evs) == Set::<u32>::empty() && r.len() > 0 {
        let c = r[0].0;
        assert(has_code(r, c));
        lemma_suppressed_code_is_held(m, b, evs, c);
    }
}

/// The filter starts no overview; it ends a keyboard move exactly when one
/// of its modifiers is let go, and a keyboard swap exactly when one of its
/// modifiers is let go or its key is released.
pub proof fn law_keyboard_overview_exit(ov: OverviewMode, ev: KeyEvent)
    ensures
        overview_after(ov, ev) == ov || overview_after(ov, ev) == OverviewMode::Inactive,
        ov matches OverviewMode::Started(Trigger::KeyboardMove(mods)) ==> (overview_after(ov, ev)
            == OverviewMode::Inactive <==> lost_modifier(mods, ev.modifiers)),
        ov matches OverviewMode::Started(Trigger::KeyboardSwap(p, _)) ==> (overview_after(ov, ev)
            == OverviewMode::Inactive <==> (lost_modifier(p.modifiers, ev.modifiers) || (
        ev.state == KeyState::Released && ev.raw_syms@.contains(p.key)))),
{
}

/// After a relative motion the pointer lies on the output that it is then
/// on, the border included.
pub proof fn law_motion_stays_on_output(
    outs: Seq<OutputGeometry>,
    current: OutputGeometry,
    location: Point,
    delta: Point,
)
    requires
        current.geometry.wf(),
        forall|i: int| 0 <= i < outs.len() ==> (#[trigger] outs[i]).geometry.wf(),
    ensures
        ({
            let o = output_at(outs, current, moved(location, delta));
            o.geometry.holds_spec(clamped(moved(location, delta), o.geometry))
        }),
{
    let p = moved(location, delta);
    let o = output_at(outs, current, p);
    lemma_containing_is_listed(outs, p, 0);
    assert(o.geometry.wf());
}

/// The output found from index `i` on is one of the outputs from there.
proof fn lemma_containing_is_listed(outs: Seq<OutputGeometry>, p: Point, i: int)
    requires
        0 <= i,
    ensures
        crate::pointer::containing_from(outs, p, i) matches Some(j) ==> i <= j < outs.len(),
    decreases outs.len() - i,
{
    if i < outs.len() && !outs[i].geometry.contains_spec(p) {
        lemma_containing_is_listed(outs, p, i + 1);
    }
}

/// Crossing outputs, each session of the former output is told that the
/// cursor left, once per listing and in listed order, before any session of
/// the new output is told that it entered. Where the sessions are listed
/// without repeats, as `pointer::sessions_for_output` lists them, each one
/// is told exactly once.
pub proof fn law_leave_before_enter(
    output: OutputId,
    former: Seq<u64>,
    sessions: Seq<u64>,
    relative: bool,
)
    ensures
        ({
            let e = motion_effects_of(output, true, former, sessions, relative);
            &&& e.subrange(0, former.len() as int) == former.map_values(|s: u64| leave_of(s))
            &&& forall|i: int|
                former.len() <= i < e.len() ==> !(#[trigger] e[i] is CursorLeave)
            &&& forall|i: int| 0 <= i < former.len() ==> !(#[trigger] e[i] is CursorEnter)
            &&& forall|k: int|
                0 <= k < former.len() ==> #[trigger] e[k] == PointerEffect::CursorLeave(former[k])
            &&& former.no_duplicates() ==> forall|i: int, j: int|
                0 <= i < e.len() && 0 <= j < e.len() && i != j && e[i] is CursorLeave ==> #[trigger] e[i]
                    != #[trigger] e[j]
        }),
{
    let e = motion_effects_of(output, true, former, sessions, relative);
    let l = former.map_values(|s: u64| leave_of(s));
    let n = sessions.map_values(|s: u64| enter_of(s));
    let f = sessions.map_values(|s: u64| info_of(s));
    let rel = if relative {
        seq![PointerEffect::RelativeMotion]
    } else {
        Seq::empty()
    };
    let tail = n + seq![PointerEffect::SetActiveOutput(output)] + f + rel + seq![
        PointerEffect::Motion,
    ];
    assert(e =~= l + tail);
    assert(e.subrange(0, former.len() as int) =~= l);
    assert forall|i: int| former.len() <= i < e.len() implies !(#[trigger] e[i] is CursorLeave) by {
        assert(e[i] == tail[i - former.len()]);
    }
    assert forall|k: int| 0 <= k < former.len() implies #[trigger] e[k]
        == PointerEffect::CursorLeave(former[k]) by {
        assert(e[k] == l[k]);
    }
    if former.no_duplicates() {
        assert forall|i: int, j: int|
            0 <= i < e.len() && 0 <= j < e.len() && i != j && e[i] is CursorLeave implies #[trigger] e[i]
            != #[trigger] e[j] by {
            if i >= former.len() {
                assert(e[i] == tail[i - former.len()]);
            }
            if e[i] == e[j] {
                if j >= former.len() {
                    assert(e[j] == tail[j - former.len()]);
                }
                assert(e[i] == l[i] && e[j] == l[j]);
            }
        }
    }
}

/// A relative motion emits the relative motion and then the motion, once
/// each, as the last two effects, and nothing between them.
pub proof fn law_relative_before_motion(
    output: OutputId,
    crossed: bool,
    former: Seq<u64>,
    sessions: Seq<u64>,
)
    ensures
        ({
            let e = motion_effects_of(output, crossed, former, sessions, true);
            &&& e.len() >= 2
            &&& e[e.len() - 2] == PointerEffect::RelativeMotion
            &&& e[e.len() - 1] == PointerEffect::Motion
            &&& forall|i: int|
                0 <= i < e.len() - 2 ==> #[trigger] e[i] != PointerEffect::RelativeMotion && e[i]
                    != PointerEffect::Motion
        }),
{
    let e = motion_effects_of(output, crossed, former, sessions, true);
    let cross = if crossed {
        former.map_values(|s: u64| leave_of(s)) + sessions.map_values(|s: u64| enter_of(s)) + seq![
            PointerEffect::SetActiveOutput(output),
        ]
    } else {
        Seq::empty()
    };
    let head = cross + sessions.map_values(|s: u64| info_of(s));
    assert(e =~= head + seq![PointerEffect::RelativeMotion, PointerEffect::Motion]);
    assert forall|i: int| 0 <= i < e.len() - 2 implies #[trigger] e[i]
        != PointerEffect::RelativeMotion && e[i] != PointerEffect::Motion by {
        assert(e[i] == head[i]);
        if crossed {
            let a = former.map_values(|s: u64| leave_of(s));
            let b = sessions.map_values(|s: u64| enter_of(s));
            if i < a.len() {
                assert(cross[i] == a[i]);
            } else if i < a.len() + b.len() {
                assert(cross[i] == b[i - a.len()]);
            }
        }
    }
}

/// One operation of the library that may change the overview.
pub enum ModalStep {
    /// `filter::filter_key` on this event.
    Key(KeyEvent),
    /// `dispatch::handle_action` on this action.
    Dispatch(Action),
    /// `dispatch::after_move` with this outcome, whether the focused window
    /// is tiled, and the binding of the move.
    Moved(MoveOutcome, bool, KeyPattern),
    /// `dispatch::start_swap` with this binding and node.
    SwapStarted(KeyPattern, NodeDesc),
    /// `pointer::on_button` with this button and state.
    Button(u32, KeyState),
}

/// The overview after the operation.
pub open spec fn overview_step(ov: OverviewMode, step: ModalStep) -> OverviewMode {
    match step {
        ModalStep::Key(ev) => overview_after(ov, ev),
        ModalStep::Dispatch(_) => ov,
        ModalStep::Moved(outcome, tiled, p) => if outcome == MoveOutcome::Stayed && tiled {
            OverviewMode::Started(Trigger::KeyboardMove(p.modifiers))
        } else {
            ov
        },
        ModalStep::SwapStarted(p, d) => OverviewMode::Started(Trigger::KeyboardSwap(p, d)),
        ModalStep::Button(b, st) => if st == KeyState::Released && ov == OverviewMode::Started(
            Trigger::Pointer(b),
        ) {
            OverviewMode::Inactive
        } else {
            ov
        },
    }
}

/// A keyboard move overview starts only where a window move left a tiled
/// window where it was, held open by the modifiers of the move's binding; a
/// keyboard swap overview starts only where a swap starts.
pub proof fn law_keyboard_overview_entry(ov: OverviewMode, step: ModalStep)
    ensures
        overview_step(ov, step) != ov ==> (overview_step(ov, step) matches OverviewMode::Started(
            Trigger::KeyboardMove(m),
        ) ==> step matches ModalStep::Moved(outcome, tiled, p) && outcome == MoveOutcome::Stayed
            && tiled && m == p.modifiers),
        overview_step(ov, step) != ov ==> (overview_step(ov, step) matches OverviewMode::Started(
            Trigger::KeyboardSwap(p, d),
        ) ==> step == ModalStep::SwapStarted(p, d)),
{
}

} // verus!
