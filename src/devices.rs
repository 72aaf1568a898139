//! The devices of a seat and the capabilities that they give it.
use vstd::prelude::*;

verus! {

/// What a device can do.
#[derive(Clone, Copy, Debug, PartialEq, Eq, Structural)]
pub enum DeviceCapability {
    Keyboard,
    Pointer,
    Touch,
    TabletTool,
    TabletPad,
    Gesture,
    Switch,
}

/// One device: its id and the capabilities recorded for it.
pub type DeviceEntry = (Seq<char>, Seq<DeviceCapability>);

/// Whether a device of `v` has capability `c`.
pub open spec fn present(v: Seq<DeviceEntry>, c: DeviceCapability) -> bool {
    exists|i: int| 0 <= i < v.len() && (#[trigger] v[i]).1.contains(c)
}

/// Whether `v` holds a device with this id.
pub open spec fn has_id(v: Seq<DeviceEntry>, id: Seq<char>) -> bool {
    exists|i: int| 0 <= i < v.len() && (#[trigger] v[i]).0 == id
}

/// The capabilities of `caps` that a seat records: keyboard and pointer,
/// in that order.
pub open spec fn recorded(caps: Seq<DeviceCapability>) -> Seq<DeviceCapability> {
    seq![DeviceCapability::Keyboard, DeviceCapability::Pointer].filter(
        |c: DeviceCapability| caps.contains(c),
    )
}

/// The capabilities of `caps` that no device of `v` has.
pub open spec fn absent_from(v: Seq<DeviceEntry>, caps: Seq<DeviceCapability>) -> Seq<
    DeviceCapability,
> {
    caps.filter(|c: DeviceCapability| !present(v, c))
}

/// The devices of one seat, by id.
pub struct Devices {
    entries: Vec<(String, Vec<DeviceCapability>)>,
}

impl View for Devices {
    type V = Seq<DeviceEntry>;

    closed spec fn view(&self) -> Seq<DeviceEntry> {
        self.entries@.map_values(|e: (String, Vec<DeviceCapability>)| (e.0@, e.1@))
    }
}

impl Devices {
    /// No two devices share an id.
    pub open spec fn wf(&self) -> bool {
        forall|i: int, j: int|
            0 <= i < j < self@.len() ==> (#[trigger] self@[i]).0 != (#[trigger] self@[j]).0
    }

    /// No device.
    pub fn new() -> (r: Self)
        ensures
            r@ == Seq::<DeviceEntry>::empty(),
            r.wf(),
    {
        let r = Devices { entries: Vec::new() };
        assert(r@ =~= Seq::<DeviceEntry>::empty());
        r
    }

    /// The index of the device with this id.
    fn index_of(&self, id: &String) -> (r: Option<usize>)
        ensures
            match r {
                Some(i) => i < self@.len() && self@[i as int].0 == id@,
                None => !has_id(self@, id@),
            },
    {
        let mut i: usize = 0;
        while i < self.entries.len()
            invariant
                i <= self@.len(),
                self@.len() == self.entries@.len(),
                forall|j: int| 0 <= j < i ==> self@[j].0 != id@,
            decreases self@.len() - i,
        {
            if self.entries[i].0 == *id {
                return Some(i);
            }
            i = i + 1;
        }
        None
    }

    /// Whether a device has capability `c`.
    fn is_present(&self, c: DeviceCapability) -> (r: bool)
        ensures
            r == present(self@, c),
    {
        let mut i: usize = 0;
        while i < self.entries.len()
            invariant
                i <= self@.len(),
                self@.len() == self.entries@.len(),
                forall|j: int| 0 <= j < i ==> !(#[trigger] self@[j]).1.contains(c),
            decreases self@.len() - i,
        {
            let caps = &self.entries[i].1;
            let mut k: usize = 0;
            while k < caps.len()
                invariant
                    k <= caps@.len(),
                    i < self@.len(),
                    self@.len() == self.entries@.len(),
                    caps@ == self@[i as int].1,
                    forall|j: int| 0 <= j < k ==> caps@[j] != c,
                decreases caps@.len() - k,
            {
                if caps[k] == c {
                    assert(self@[i as int].1[k as int] == c);
                    assert(self@[i as int].1.contains(c));
                    return true;
                }
                k = k + 1;
            }
            i = i + 1;
        }
        false
    }

    /// The capabilities of `caps` that no device has, in their order.
    fn keep_absent(&self, caps: &Vec<DeviceCapability>) -> (r: Vec<DeviceCapability>)
        ensures
            r@ == absent_from(self@, caps@),
    {
        let mut r: Vec<DeviceCapability> = Vec::new();
        let mut i: usize = 0;
        while i < caps.len()
            invariant
                i <= caps@.len(),
                r@ == caps@.subrange(0, i as int).filter(|c: DeviceCapability| !present(self@, c)),
            decreases caps@.len() - i,
        {
            let c = caps[i];
            proof {
                assert(caps@.subrange(0, i + 1) =~= caps@.subrange(0, i as int).push(c));
                caps@.subrange(0, i as int).lemma_filter_push(
                    c,
                    |c: DeviceCapability| !present(self@, c),
                );
            }
            let absent = !self.is_present(c);
            if absent {
                r.push(c);
            }
            i = i + 1;
        }
        assert(caps@.subrange(0, caps@.len() as int) =~= caps@);
        r
    }

    /// Whether a device with this id belongs to the seat.
    pub fn has_device(&self, id: &String) -> (r: bool)
        ensures
            r == has_id(self@, id@),
    {
        self.index_of(id).is_some()
    }

    /// Records device `id` with the keyboard and pointer capabilities among
    /// `caps`, in place of what was recorded for it before. Returns those of
    /// them that no device of the seat had before.
    pub fn add_device(&mut self, id: String, caps: &Vec<DeviceCapability>) -> (r: Vec<
        DeviceCapability,
    >)
        requires
            old(self).wf(),
        ensures
            final(self).wf(),
            r@ == absent_from(old(self)@, recorded(caps@)),
            has_id(old(self)@, id@) ==> exists|i: int|
                0 <= i < old(self)@.len() && old(self)@[i].0 == id@ && final(self)@ == old(
                    self,
                )@.update(i, (id@, recorded(caps@))),
            !has_id(old(self)@, id@) ==> final(self)@ == old(self)@.push((id@, recorded(caps@))),
    {
        let mut kept: Vec<DeviceCapability> = Vec::new();
        if contains_cap(caps, DeviceCapability::Keyboard) {
            kept.push(DeviceCapability::Keyboard);
        }
        if contains_cap(caps, DeviceCapability::Pointer) {
            kept.push(DeviceCapability::Pointer);
        }
        proof {
            let p = |c: DeviceCapability| caps@.contains(c);
            let e = Seq::<DeviceCapability>::empty();
            assert(e.filter(p) =~= e) by {
                reveal(Seq::filter);
            }
            e.lemma_filter_push(DeviceCapability::Keyboard, p);
            e.push(DeviceCapability::Keyboard).lemma_filter_push(DeviceCapability::Pointer, p);
            assert(e.push(DeviceCapability::Keyboard).push(DeviceCapability::Pointer) =~= seq![
                DeviceCapability::Keyboard,
                DeviceCapability::Pointer,
            ]);
            assert(kept@ =~= recorded(caps@));
        }
        let fresh = self.keep_absent(&kept);
        let ghost before = self@;
        match self.index_of(&id) {
            Some(i) => {
                self.entries.set(i, (id, kept));
                proof {
                    assert(self@ =~= before.update(i as int, (id@, recorded(caps@))));
                }
            },
            None => {
                self.entries.push((id, kept));
                proof {
                    assert(self@ =~= before.push((id@, recorded(caps@))));
                }
            },
        }
        fresh
    }

    /// Forgets device `id`. Returns the capabilities it had that no device
    /// left on the seat has.
    pub fn remove_device(&mut self, id: &String) -> (r: Vec<DeviceCapability>)
        requires
            old(self).wf(),
        ensures
            final(self).wf(),
            has_id(old(self)@, id@) ==> exists|i: int|
                0 <= i < old(self)@.len() && old(self)@[i].0 == id@ && final(self)@ == old(
                    self,
                )@.remove(i) && r@ == absent_from(final(self)@, old(self)@[i].1),
            !has_id(old(self)@, id@) ==> final(self)@ == old(self)@ && r@
                == Seq::<DeviceCapability>::empty(),
    {
        let ghost before = self@;
        match self.index_of(id) {
            Some(i) => {
                let (_, caps) = self.entries.remove(i);
                proof {
                    assert(self@ =~= before.remove(i as int));
                    assert(caps@ == before[i as int].1);
                }
                self.keep_absent(&caps)
            },
            None => Vec::new(),
        }
    }
}

/// Whether `caps` holds `c`.
fn contains_cap(caps: &Vec<DeviceCapability>, c: DeviceCapability) -> (r: bool)
    ensures
        r == caps@.contains(c),
{
    let mut i: usize = 0;
    while i < caps.len()
        invariant
            i <= caps@.len(),
            forall|j: int| 0 <= j < i ==> caps@[j] != c,
        decreases caps@.len() - i,
    {
        if caps[i] == c {
            return true;
        }
        i = i + 1;
    }
    false
}

} // verus!
