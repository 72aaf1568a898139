//! Seats: their ids and the per-seat bookkeeping of input.
use vstd::prelude::*;
use crate::devices::{has_id, DeviceEntry, Devices};
use crate::dispatch::OutputId;
use crate::suppressed::{Suppression, SupressedKeys};

verus! {

/// Milliseconds before a held key starts repeating.
pub const KEY_REPEAT_DELAY: i32 = 200;
/// Milliseconds between repeats of a held key.
pub const KEY_REPEAT_RATE: i32 = 25;

/// The id of a seat, unique among the live seats.
#[derive(Debug, PartialEq, Eq, Structural)]
pub struct SeatId(pub usize);

/// Hands out seat ids in increasing order, skipping those still in use.
pub struct SeatIdPool {
    next: usize,
    live: Vec<usize>,
}

impl View for SeatIdPool {
    /// The next id to try and the ids in use.
    type V = (usize, Seq<usize>);

    closed spec fn view(&self) -> (usize, Seq<usize>) {
        (self.next, self.live@)
    }
}

impl SeatIdPool {
    /// No id in use; the first id is 0.
    pub fn new() -> (r: Self)
        ensures
            r@ == (0usize, Seq::<usize>::empty()),
    {
        SeatIdPool { next: 0, live: Vec::new() }
    }

    fn is_live(&self, id: usize) -> (r: bool)
        ensures
            r == self@.1.contains(id),
    {
        let mut i: usize = 0;
        while i < self.live.len()
            invariant
                i <= self@.1.len(),
                forall|j: int| 0 <= j < i ==> self@.1[j] != id,
            decreases self@.1.len() - i,
        {
            if self.live[i] == id {
                return true;
            }
            i = i + 1;
        }
        false
    }

    /// Takes the least id from the next one on that is not in use, or none
    /// if all of them are.
    pub fn allocate(&mut self) -> (r: Option<SeatId>)
        ensures
            match r {
                Some(id) => {
                    &&& old(self)@.0 <= id.0
                    &&& !old(self)@.1.contains(id.0)
                    &&& forall|k: usize| old(self)@.0 <= k < id.0 ==> old(self)@.1.contains(k)
                    &&& final(self)@.1 == old(self)@.1.push(id.0)
                    &&& final(self)@.0 == (if id.0 == usize::MAX {
                        id.0
                    } else {
                        (id.0 + 1) as usize
                    })
                },
                None => {
                    &&& forall|k: usize| old(self)@.0 <= k ==> old(self)@.1.contains(k)
                    &&& final(self)@ == old(self)@
                },
            },
    {
        let mut candidate = self.next;
        loop
            invariant
                self@ == old(self)@,
                old(self)@.0 <= candidate,
                forall|k: usize| old(self)@.0 <= k < candidate ==> old(self)@.1.contains(k),
            decreases usize::MAX - candidate,
        {
            if !self.is_live(candidate) {
                self.live.push(candidate);
                self.next = if candidate == usize::MAX {
                    candidate
                } else {
                    candidate + 1
                };
                return Some(SeatId(candidate));
            }
            if candidate == usize::MAX {
                return None;
            }
            candidate = candidate + 1;
        }
    }

    /// Returns the id to the pool.
    pub fn release(&mut self, id: SeatId)
        ensures
            final(self)@.0 == old(self)@.0,
            final(self)@.1 == old(self)@.1.filter(|k: usize| k != id.0),
    {
        let mut kept: Vec<usize> = Vec::new();
        let mut i: usize = 0;
        while i < self.live.len()
            invariant
                i <= self@.1.len(),
                self@ == old(self)@,
                kept@ == self@.1.subrange(0, i as int).filter(|k: usize| k != id.0),
            decreases self@.1.len() - i,
        {
            let k = self.live[i];
            proof {
                assert(self@.1.subrange(0, i + 1) =~= self@.1.subrange(0, i as int).push(k));
                self@.1.subrange(0, i as int).lemma_filter_push(k, |k: usize| k != id.0);
            }
            if k != id.0 {
                kept.push(k);
            }
            i = i + 1;
        }
        assert(self@.1.subrange(0, self@.1.len() as int) =~= self@.1);
        self.live = kept;
    }
}

/// The output that a seat works on.
#[derive(Clone, Copy, Debug, PartialEq, Eq, Structural)]
pub struct ActiveOutput(pub OutputId);

/// The input bookkeeping of one seat.
pub struct SeatData {
    pub id: SeatId,
    pub devices: Devices,
    pub suppressed: SupressedKeys,
    pub active_output: ActiveOutput,
}

/// Sets up a seat on `output`: a fresh id, no device and no suppressed key.
/// The seat's logical keyboard (repeating after `KEY_REPEAT_DELAY`, every
/// `KEY_REPEAT_RATE`) and pointer exist from the start, whatever devices
/// come; `None` only where no id is left.
pub fn add_seat(ids: &mut SeatIdPool, output: OutputId) -> (r: Option<SeatData>)
    ensures
        r is None <==> forall|k: usize| old(ids)@.0 <= k ==> old(ids)@.1.contains(k),
        match r {
            Some(seat) => {
                &&& old(ids)@.0 <= seat.id.0
                &&& forall|k: usize| old(ids)@.0 <= k < seat.id.0 ==> old(ids)@.1.contains(k)
                &&& !old(ids)@.1.contains(seat.id.0)
                &&& final(ids)@.1 == old(ids)@.1.push(seat.id.0)
                &&& seat.devices@ == Seq::<DeviceEntry>::empty()
                &&& seat.devices.wf()
                &&& seat.suppressed@ == Seq::<Suppression>::empty()
                &&& seat.active_output == ActiveOutput(output)
            },
            None => final(ids)@ == old(ids)@,
        },
{
    match ids.allocate() {
        Some(id) => Some(
            SeatData {
                id,
                devices: Devices::new(),
                suppressed: SupressedKeys::new(),
                active_output: ActiveOutput(output),
            },
        ),
        None => None,
    }
}

/// The index of the first seat that holds the device with this id.
pub fn seat_with_device(seats: &Vec<SeatData>, device: &String) -> (r: Option<usize>)
    ensures
        match r {
            Some(i) => i < seats@.len() && has_id(seats@[i as int].devices@, device@) && forall|
                j: int,
            |
                0 <= j < i ==> !has_id(#[trigger] seats@[j].devices@, device@),
            None => forall|j: int|
                0 <= j < seats@.len() ==> !has_id(#[trigger] seats@[j].devices@, device@),
        },
{
    let mut i: usize = 0;
    while i < seats.len()
        invariant
            i <= seats@.len(),
            forall|j: int| 0 <= j < i ==> !has_id(#[trigger] seats@[j].devices@, device@),
        decreases seats@.len() - i,
    {
        if seats[i].devices.has_device(device) {
            return Some(i);
        }
        i = i + 1;
    }
    None
}

} // verus!
