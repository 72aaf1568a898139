//! Pointer motion across outputs and the order of what it emits.
//!
//! Coordinates are integers in a fixed subpixel unit that the caller picks
//! (the Wayland wire format uses 1/256 of a logical pixel); the geometry of
//! the outputs is given in the same unit.
use vstd::prelude::*;
use crate::dispatch::OutputId;
use crate::keys::KeyState;
use crate::modal::{ModalState, OverviewMode, Trigger};

verus! {

/// A point of the global space.
#[derive(Clone, Copy, Debug, PartialEq, Eq, Structural)]
pub struct Point {
    pub x: i64,
    pub y: i64,
}

/// A rectangle: its top-left corner and its size.
#[derive(Clone, Copy, Debug, PartialEq, Eq, Structural)]
pub struct Rect {
    pub x: i64,
    pub y: i64,
    pub w: i64,
    pub h: i64,
}

impl Rect {
    /// The size is not negative and the far edges are representable.
    pub open spec fn wf(&self) -> bool {
        &&& 0 <= self.w
        &&& 0 <= self.h
        &&& self.x + self.w <= i64::MAX
        &&& self.y + self.h <= i64::MAX
    }

    /// Whether `p` lies in the rectangle; the far edges are outside.
    pub open spec fn contains_spec(&self, p: Point) -> bool {
        &&& self.x <= p.x < self.x + self.w
        &&& self.y <= p.y < self.y + self.h
    }

    /// Whether `p` lies in the rectangle or on its border.
    pub open spec fn holds_spec(&self, p: Point) -> bool {
        &&& self.x <= p.x <= self.x + self.w
        &&& self.y <= p.y <= self.y + self.h
    }

    /// Whether `p` lies in the rectangle; the far edges are outside.
    pub fn contains(&self, p: Point) -> (r: bool)
        requires
            self.wf(),
        ensures
            r == self.contains_spec(p),
    {
        self.x <= p.x && p.x < self.x + self.w && self.y <= p.y && p.y < self.y + self.h
    }
}

/// An output and where it lies in the global space.
#[derive(Clone, Copy, Debug, PartialEq, Eq, Structural)]
pub struct OutputGeometry {
    pub output: OutputId,
    pub geometry: Rect,
}

/// `a + b`, held within the range of `i64`.
pub open spec fn sat_add(a: i64, b: i64) -> i64 {
    if a + b > i64::MAX {
        i64::MAX
    } else if a + b < i64::MIN {
        i64::MIN
    } else {
        (a + b) as i64
    }
}

/// `v` held within `[lo, hi]`.
pub open spec fn clamp(v: i64, lo: i64, hi: i64) -> i64 {
    if v < lo {
        lo
    } else if v > hi {
        hi
    } else {
        v
    }
}

/// `a + b`, held within the range of `i64`.
pub fn saturating_add(a: i64, b: i64) -> (r: i64)
    ensures
        r == sat_add(a, b),
{
    if b > 0 && a > i64::MAX - b {
        i64::MAX
    } else if b < 0 && a < i64::MIN - b {
        i64::MIN
    } else {
        a + b
    }
}

/// `p` moved by `d`.
pub open spec fn moved(p: Point, d: Point) -> Point {
    Point { x: sat_add(p.x, d.x), y: sat_add(p.y, d.y) }
}

/// `p` held within the rectangle, its border included.
pub open spec fn clamped(p: Point, r: Rect) -> Point {
    Point { x: clamp(p.x, r.x, (r.x + r.w) as i64), y: clamp(p.y, r.y, (r.y + r.h) as i64) }
}

/// The index of the first output from `i` on that contains `p`.
pub open spec fn containing_from(outs: Seq<OutputGeometry>, p: Point, i: int) -> Option<int>
    decreases outs.len() - i,
{
    if i < 0 || i >= outs.len() {
        None
    } else if outs[i].geometry.contains_spec(p) {
        Some(i)
    } else {
        containing_from(outs, p, i + 1)
    }
}

/// The output of the pointer at `p`: the first that contains it, else the
/// current one.
pub open spec fn output_at(outs: Seq<OutputGeometry>, current: OutputGeometry, p: Point) -> OutputGeometry {
    match containing_from(outs, p, 0) {
        Some(i) => outs[i],
        None => current,
    }
}

/// The index of the first output that contains `p`.
fn first_containing(outputs: &Vec<OutputGeometry>, p: Point) -> (r: Option<usize>)
    requires
        forall|i: int| 0 <= i < outputs@.len() ==> (#[trigger] outputs@[i]).geometry.wf(),
    ensures
        match r {
            Some(i) => containing_from(outputs@, p, 0) == Some(i as int) && i < outputs@.len(),
            None => containing_from(outputs@, p, 0) is None,
        },
{
    let mut i: usize = 0;
    while i < outputs.len()
        invariant
            i <= outputs@.len(),
            containing_from(outputs@, p, 0) == containing_from(outputs@, p, i as int),
            forall|j: int| 0 <= j < outputs@.len() ==> (#[trigger] outputs@[j]).geometry.wf(),
        decreases outputs@.len() - i,
    {
        if outputs[i].geometry.contains(p) {
            return Some(i);
        }
        i = i + 1;
    }
    None
}

/// Where a relative motion takes the pointer.
#[derive(Clone, Copy, Debug, PartialEq, Eq, Structural)]
pub struct MotionTarget {
    /// The output that the pointer is on after the motion.
    pub output: OutputGeometry,
    /// The pointer's new location.
    pub location: Point,
    /// The pointer left the current output.
    pub crossed: bool,
}

/// Moves the pointer from `location` by `delta`. The new output is the first
/// that contains the moved point, else the current one; the point is then
/// held within that output, its border included.
pub fn relative_motion(
    outputs: &Vec<OutputGeometry>,
    current: OutputGeometry,
    location: Point,
    delta: Point,
) -> (r: MotionTarget)
    requires
        current.geometry.wf(),
        forall|i: int| 0 <= i < outputs@.len() ==> (#[trigger] outputs@[i]).geometry.wf(),
    ensures
        r.output == output_at(outputs@, current, moved(location, delta)),
        r.crossed == (r.output.output != current.output),
        r.location == clamped(moved(location, delta), r.output.geometry),
        r.output.geometry.holds_spec(r.location),
{
    let p = Point {
        x: saturating_add(location.x, delta.x),
        y: saturating_add(location.y, delta.y),
    };
    let chosen = match first_containing(outputs, p) {
        Some(i) => outputs[i],
        None => current,
    };
    let g = chosen.geometry;
    let right = g.x + g.w;
    let bottom = g.y + g.h;
    let x = if p.x < g.x {
        g.x
    } else if p.x > right {
        right
    } else {
        p.x
    };
    let y = if p.y < g.y {
        g.y
    } else if p.y > bottom {
        bottom
    } else {
        p.y
    };
    MotionTarget { output: chosen, location: Point { x, y }, crossed: chosen.output != current.output }
}

/// The location of an absolute motion: the output's corner moved by the
/// event's position within the output.
pub fn absolute_location(geometry: Rect, within: Point) -> (r: Point)
    ensures
        r == moved(Point { x: geometry.x, y: geometry.y }, within),
{
    Point { x: saturating_add(geometry.x, within.x), y: saturating_add(geometry.y, within.y) }
}

/// One thing that pointer motion emits, in the order emitted.
#[derive(Clone, Copy, Debug, PartialEq, Eq, Structural)]
pub enum PointerEffect {
    /// The cursor left the output that this screencopy session captures.
    CursorLeave(u64),
    /// The cursor entered the output that this screencopy session captures.
    CursorEnter(u64),
    /// The seat's active output becomes this one.
    SetActiveOutput(OutputId),
    /// The cursor image and position go to this screencopy session.
    CursorInfo(u64),
    /// The relative motion goes to the focused client.
    RelativeMotion,
    /// The motion goes to the focused client.
    Motion,
}

pub open spec fn leave_of(s: u64) -> PointerEffect {
    PointerEffect::CursorLeave(s)
}

pub open spec fn enter_of(s: u64) -> PointerEffect {
    PointerEffect::CursorEnter(s)
}

pub open spec fn info_of(s: u64) -> PointerEffect {
    PointerEffect::CursorInfo(s)
}

/// What a motion emits. Where it crossed outputs: a cursor leave to each
/// session of the former output, a cursor enter to each session of the new
/// one, then the change of active output. Then cursor information to each
/// session of the output, the relative motion if the event was relative, and
/// the motion last.
pub open spec fn motion_effects_of(
    output: OutputId,
    crossed: bool,
    former: Seq<u64>,
    sessions: Seq<u64>,
    relative: bool,
) -> Seq<PointerEffect> {
    let cross = if crossed {
        former.map_values(|s: u64| leave_of(s)) + sessions.map_values(|s: u64| enter_of(s)) + seq![
            PointerEffect::SetActiveOutput(output),
        ]
    } else {
        Seq::empty()
    };
    let rel = if relative {
        seq![PointerEffect::RelativeMotion]
    } else {
        Seq::empty()
    };
    cross + sessions.map_values(|s: u64| info_of(s)) + rel + seq![PointerEffect::Motion]
}

/// The effect of kind `kind` (leave, enter, information) for session `s`.
pub open spec fn effect_of(kind: u8, s: u64) -> PointerEffect {
    if kind == 0 {
        leave_of(s)
    } else if kind == 1 {
        enter_of(s)
    } else {
        info_of(s)
    }
}

/// Appends one effect per session.
fn push_each(v: &mut Vec<PointerEffect>, sessions: &Vec<u64>, kind: u8)
    ensures
        final(v)@ == old(v)@ + sessions@.map_values(|s: u64| effect_of(kind, s)),
{
    let mut i: usize = 0;
    while i < sessions.len()
        invariant
            i <= sessions@.len(),
            v@ == old(v)@ + sessions@.subrange(0, i as int).map_values(
                |s: u64| effect_of(kind, s),
            ),
        decreases sessions@.len() - i,
    {
        let s = sessions[i];
        let e = if kind == 0 {
            PointerEffect::CursorLeave(s)
        } else if kind == 1 {
            PointerEffect::CursorEnter(s)
        } else {
            PointerEffect::CursorInfo(s)
        };
        v.push(e);
        proof {
            let f = |s: u64| effect_of(kind, s);
            assert(sessions@.subrange(0, i + 1) =~= sessions@.subrange(0, i as int).push(s));
            assert(sessions@.subrange(0, i + 1).map_values(f) =~= sessions@.subrange(
                0,
                i as int,
            ).map_values(f).push(f(s)));
            assert(v@ =~= old(v)@ + sessions@.subrange(0, i + 1).map_values(f));
        }
        i = i + 1;
    }
    assert(sessions@.subrange(0, sessions@.len() as int) =~= sessions@);
}

/// Lists what a motion onto `output` emits, in order; `former` holds the
/// screencopy sessions of the output the pointer left, if `crossed`, and
/// `sessions` those of `output`.
pub fn motion_effects(
    output: OutputId,
    crossed: bool,
    former: &Vec<u64>,
    sessions: &Vec<u64>,
    relative: bool,
) -> (r: Vec<PointerEffect>)
    ensures
        r@ == motion_effects_of(output, crossed, former@, sessions@, relative),
{
    let mut v: Vec<PointerEffect> = Vec::new();
    if crossed {
        push_each(&mut v, former, 0);
        push_each(&mut v, sessions, 1);
        v.push(PointerEffect::SetActiveOutput(output));
    }
    push_each(&mut v, sessions, 2);
    if relative {
        v.push(PointerEffect::RelativeMotion);
    }
    v.push(PointerEffect::Motion);
    proof {
        let f0 = |s: u64| effect_of(0, s);
        let f1 = |s: u64| effect_of(1, s);
        let f2 = |s: u64| effect_of(2, s);
        assert(former@.map_values(f0) =~= former@.map_values(|s: u64| leave_of(s)));
        assert(sessions@.map_values(f1) =~= sessions@.map_values(|s: u64| enter_of(s)));
        assert(sessions@.map_values(f2) =~= sessions@.map_values(|s: u64| info_of(s)));
    }
    assert(v@ =~= motion_effects_of(output, crossed, former@, sessions@, relative));
    v
}

/// `s` with each value kept where it first occurs only.
pub open spec fn dedup(s: Seq<u64>) -> Seq<u64>
    decreases s.len(),
{
    if s.len() == 0 {
        s
    } else if s.drop_last().contains(s.last()) {
        dedup(s.drop_last())
    } else {
        dedup(s.drop_last()).push(s.last())
    }
}

/// `dedup(s)` holds every value of `s`, and each once.
pub proof fn lemma_dedup(s: Seq<u64>)
    ensures
        dedup(s).no_duplicates(),
        forall|x: u64| #[trigger] dedup(s).contains(x) <==> s.contains(x),
    decreases s.len(),
{
    if s.len() > 0 {
        let p = s.drop_last();
        lemma_dedup(p);
        assert forall|x: u64| #[trigger] s.contains(x) <==> (p.contains(x) || x == s.last()) by {
            if s.contains(x) {
                let i = choose|i: int| 0 <= i < s.len() && s[i] == x;
                if i < s.len() - 1 {
                    assert(p[i] == x);
                }
            }
            if p.contains(x) {
                let i = choose|i: int| 0 <= i < p.len() && p[i] == x;
                assert(s[i] == x);
            }
            if x == s.last() {
                assert(s[s.len() - 1] == x);
            }
        }
        if !p.contains(s.last()) {
            let d = dedup(p);
            let d2 = d.push(s.last());
            assert forall|x: u64| #[trigger] d2.contains(x) <==> (d.contains(x) || x == s.last()) by {
                if d2.contains(x) {
                    let i = choose|i: int| 0 <= i < d2.len() && d2[i] == x;
                    if i < d.len() {
                        assert(d[i] == x);
                    }
                }
                if d.contains(x) {
                    let i = choose|i: int| 0 <= i < d.len() && d[i] == x;
                    assert(d2[i] == x);
                }
                if x == s.last() {
                    assert(d2[d2.len() - 1] == x);
                }
            }
            assert forall|i: int, j: int| 0 <= i < d2.len() && 0 <= j < d2.len() && i != j
                implies d2[i] != d2[j] by {
                if i < d.len() && j < d.len() {
                } else if i < d.len() {
                    assert(d.contains(d2[i]));
                } else {
                    assert(d.contains(d2[j]));
                }
            }
        }
    }
}

/// The screencopy sessions to tell of the cursor on an output: the union of
/// those of its active workspace, those of its fullscreen window and those
/// of the output itself, each once, in the order they first appear there.
pub fn sessions_for_output(
    workspace: &Vec<u64>,
    fullscreen: Option<&Vec<u64>>,
    output: Option<&Vec<u64>>,
) -> (r: Vec<u64>)
    ensures
        r@ == dedup(
            workspace@ + (match fullscreen {
                Some(f) => f@,
                None => Seq::empty(),
            }) + (match output {
                Some(o) => o@,
                None => Seq::empty(),
            }),
        ),
        r@.no_duplicates(),
        forall|x: u64|
            #[trigger] r@.contains(x) <==> (workspace@.contains(x) || (fullscreen matches Some(
                f,
            ) && f@.contains(x)) || (output matches Some(o) && o@.contains(x))),
{
    let ghost f_seq = match fullscreen {
        Some(f) => f@,
        None => Seq::<u64>::empty(),
    };
    let ghost o_seq = match output {
        Some(o) => o@,
        None => Seq::<u64>::empty(),
    };
    let mut all: Vec<u64> = Vec::new();
    append(&mut all, workspace);
    if let Some(f) = fullscreen {
        append(&mut all, f);
    }
    if let Some(o) = output {
        append(&mut all, o);
    }
    assert(all@ =~= workspace@ + f_seq + o_seq);
    let mut r: Vec<u64> = Vec::new();
    let mut i: usize = 0;
    while i < all.len()
        invariant
            i <= all@.len(),
            r@ == dedup(all@.subrange(0, i as int)),
        decreases all@.len() - i,
    {
        let x = all[i];
        proof {
            let p = all@.subrange(0, i as int);
            lemma_dedup(p);
            assert(all@.subrange(0, i + 1).drop_last() =~= p);
        }
        if !contains_session(&r, x) {
            r.push(x);
        }
        i = i + 1;
    }
    proof {
        assert(all@.subrange(0, all@.len() as int) =~= all@);
        lemma_dedup(all@);
        assert forall|x: u64| #[trigger] all@.contains(x) <==> (workspace@.contains(x)
            || f_seq.contains(x) || o_seq.contains(x)) by {
            let w = workspace@;
            if all@.contains(x) {
                let i = choose|i: int| 0 <= i < all@.len() && all@[i] == x;
                if i < w.len() {
                    assert(w[i] == x);
                } else if i < w.len() + f_seq.len() {
                    assert(f_seq[i - w.len()] == x);
                } else {
                    assert(o_seq[i - w.len() - f_seq.len()] == x);
                }
            }
            if w.contains(x) {
                let i = choose|i: int| 0 <= i < w.len() && w[i] == x;
                assert(all@[i] == x);
            }
            if f_seq.contains(x) {
                let i = choose|i: int| 0 <= i < f_seq.len() && f_seq[i] == x;
                assert(all@[w.len() + i] == x);
            }
            if o_seq.contains(x) {
                let i = choose|i: int| 0 <= i < o_seq.len() && o_seq[i] == x;
                assert(all@[w.len() + f_seq.len() + i] == x);
            }
        }
    }
    r
}

fn contains_session(v: &Vec<u64>, x: u64) -> (r: bool)
    ensures
        r == v@.contains(x),
{
    let mut i: usize = 0;
    while i < v.len()
        invariant
            i <= v@.len(),
            forall|j: int| 0 <= j < i ==> v@[j] != x,
        decreases v@.len() - i,
    {
        if v[i] == x {
            return true;
        }
        i = i + 1;
    }
    false
}

fn append(v: &mut Vec<u64>, more: &Vec<u64>)
    ensures
        final(v)@ == old(v)@ + more@,
{
    let mut i: usize = 0;
    while i < more.len()
        invariant
            i <= more@.len(),
            v@ == old(v)@ + more@.subrange(0, i as int),
        decreases more@.len() - i,
    {
        v.push(more[i]);
        proof {
            assert(more@.subrange(0, i + 1) =~= more@.subrange(0, i as int).push(more@[i as int]));
        }
        i = i + 1;
    }
    assert(more@.subrange(0, more@.len() as int) =~= more@);
}

/// What a pointer button event decides.
#[derive(Clone, Copy, Debug, PartialEq, Eq, Structural)]
pub struct ButtonOutcome {
    /// The keyboard focus moves to what lies under the pointer.
    pub refocus: bool,
    /// The overview that this button held open ended.
    pub overview_ended: bool,
}

/// Decides a pointer button event: a press moves the keyboard focus unless
/// the pointer or the keyboard is grabbed; the release of the button that
/// holds the overview open ends it.
pub fn on_button(
    modal: &mut ModalState,
    button: u32,
    state: KeyState,
    pointer_grabbed: bool,
    keyboard_grabbed: bool,
) -> (r: ButtonOutcome)
    ensures
        r.refocus == (state == KeyState::Pressed && !pointer_grabbed && !keyboard_grabbed),
        r.overview_ended == (state == KeyState::Released && old(modal).overview
            == OverviewMode::Started(Trigger::Pointer(button))),
        final(modal).resize == old(modal).resize,
        final(modal).overview == crate::laws::overview_step(
            old(modal).overview,
            crate::laws::ModalStep::Button(button, state),
        ),
        final(modal).overview == (if r.overview_ended {
            OverviewMode::Inactive
        } else {
            old(modal).overview
        }),
{
    let refocus = state == KeyState::Pressed && !pointer_grabbed && !keyboard_grabbed;
    let mut overview_ended = false;
    if state == KeyState::Released {
        if let OverviewMode::Started(Trigger::Pointer(b)) = modal.overview {
            if b == button {
                modal.overview = OverviewMode::Inactive;
                overview_ended = true;
            }
        }
    }
    ButtonOutcome { refocus, overview_ended }
}

} // verus!
