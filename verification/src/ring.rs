//! The buffer ring: three fixed frame slots and three roles (`front`, `back`,
//! `temp`) that name them. Roles move between slots; the slots themselves are
//! allocated once and overwritten in place. The consumer displays the `front`
//! slot, the producer encodes into the `temp` slot, and the `back` slot holds
//! the most recently published frame while it waits to be displayed.
use vstd::prelude::*;
use crate::frame::Frame;

verus! {

/// A role-reassignment operation on the ring: `Swap` exchanges `front` and
/// `back` (done by the consumer after displaying), `Publish` exchanges `temp`
/// and `back` (done by the producer after encoding, once the consumer has
/// requested the next frame).
#[derive(Clone, Copy, PartialEq, Eq, Structural, Debug)]
pub enum RingOp {
    Swap,
    Publish,
}

/// The ghost view of the ring's role assignment: which of the three slots
/// each role currently names.
pub struct Roles {
    pub front: int,
    pub back: int,
    pub temp: int,
}

impl Roles {
    /// The roles are a permutation of the three storage slots: every role
    /// names a real slot and no two roles alias the same slot.
    pub open spec fn is_permutation(self) -> bool {
        &&& 0 <= self.front < 3
        &&& 0 <= self.back < 3
        &&& 0 <= self.temp < 3
        &&& self.front != self.back
        &&& self.front != self.temp
        &&& self.back != self.temp
    }

    /// Applying one role-reassignment: a single exchange of two roles.
    pub open spec fn apply(self, op: RingOp) -> Roles {
        match op {
            RingOp::Swap => Roles { front: self.back, back: self.front, temp: self.temp },
            RingOp::Publish => Roles { front: self.front, back: self.temp, temp: self.back },
        }
    }

    /// Applying a whole sequence of role-reassignments, oldest first.
    pub open spec fn apply_all(self, ops: Seq<RingOp>) -> Roles
        decreases ops.len(),
    {
        if ops.len() == 0 {
            self
        } else {
            self.apply(ops[0]).apply_all(ops.drop_first())
        }
    }
}

/// No sequence of `swap`/`publish` operations ever breaks the permutation:
/// starting from any valid role assignment, after any interleaving of the two
/// operations the roles still name three distinct slots.
pub proof fn lemma_no_role_aliasing(r: Roles, ops: Seq<RingOp>)
    requires
        r.is_permutation(),
    ensures
        r.apply_all(ops).is_permutation(),
    decreases ops.len(),
{
    if ops.len() > 0 {
        lemma_no_role_aliasing(r.apply(ops[0]), ops.drop_first());
    }
}

/// The triple-buffered frame ring. The three `Frame` slots are owned in a
/// fixed vector; the roles are indices into it, exchanged atomically from the
/// caller's point of view (each exchange is one `&mut self` call, serialized
/// by the synchronizer's tokens).
pub struct DoubleBuffer {
    slots: Vec<Frame>,
    front_i: usize,
    back_i: usize,
    temp_i: usize,
}

impl DoubleBuffer {
    /// The ghost view of the current role assignment.
    pub closed spec fn roles(self) -> Roles {
        Roles { front: self.front_i as int, back: self.back_i as int, temp: self.temp_i as int }
    }

    /// Well-formed: three slots, roles a permutation of them.
    pub closed spec fn wf(self) -> bool {
        &&& self.slots@.len() == 3
        &&& self.roles().is_permutation()
    }

    /// The frame currently reachable through each role.
    pub closed spec fn front_frame(self) -> Frame {
        self.slots@[self.roles().front]
    }

    pub closed spec fn back_frame(self) -> Frame {
        self.slots@[self.roles().back]
    }

    pub closed spec fn temp_frame(self) -> Frame {
        self.slots@[self.roles().temp]
    }

    /// Allocates the ring: three empty frames of the fixed grid size, roles
    /// bound to slots 0, 1, 2.
    pub fn new(width: u32, height: u32) -> (db: DoubleBuffer)
        ensures
            db.wf(),
            db.roles() == (Roles { front: 0, back: 1, temp: 2 }),
            db.front_frame().is_blank(width, height),
            db.back_frame().is_blank(width, height),
            db.temp_frame().is_blank(width, height),
    {
        let mut slots: Vec<Frame> = Vec::new();
        slots.push(Frame { width, height, stamp: 0, data: Vec::new() });
        slots.push(Frame { width, height, stamp: 0, data: Vec::new() });
        slots.push(Frame { width, height, stamp: 0, data: Vec::new() });
        DoubleBuffer { slots, front_i: 0, back_i: 1, temp_i: 2 }
    }

    /// Exchanges the `front` and `back` roles: the consumer calls this after
    /// displaying, making the just-published frame the next display frame.
    /// No slot's contents change; only the two roles move.
    pub fn swap(&mut self)
        requires
            old(self).wf(),
        ensures
            final(self).wf(),
            final(self).roles() == old(self).roles().apply(RingOp::Swap),
            final(self).front_frame() == old(self).back_frame(),
            final(self).back_frame() == old(self).front_frame(),
            final(self).temp_frame() == old(self).temp_frame(),
    {
        let f = self.front_i;
        self.front_i = self.back_i;
        self.back_i = f;
    }

    /// Exchanges the `temp` and `back` roles: the producer calls this to
    /// publish the frame it just encoded. No slot's contents change; only the
    /// two roles move.
    pub fn temp_to_back(&mut self)
        requires
            old(self).wf(),
        ensures
            final(self).wf(),
            final(self).roles() == old(self).roles().apply(RingOp::Publish),
            final(self).back_frame() == old(self).temp_frame(),
            final(self).temp_frame() == old(self).back_frame(),
            final(self).front_frame() == old(self).front_frame(),
    {
        let t = self.temp_i;
        self.temp_i = self.back_i;
        self.back_i = t;
    }

    /// Read-only view of the current display frame.
    pub fn front(&self) -> (f: &Frame)
        requires
            self.wf(),
        ensures
            *f == self.front_frame(),
    {
        &self.slots[self.front_i]
    }

    /// Overwrites the producer's private working slot with a newly encoded
    /// frame. Dimensions are kept; only the data and the stamp change.
    pub fn set_temp(&mut self, data: Vec<u8>, stamp: u64)
        requires
            old(self).wf(),
        ensures
            final(self).wf(),
            final(self).roles() == old(self).roles(),
            final(self).temp_frame() == (Frame {
                width: old(self).temp_frame().width,
                height: old(self).temp_frame().height,
                stamp,
                data,
            }),
            final(self).front_frame() == old(self).front_frame(),
            final(self).back_frame() == old(self).back_frame(),
    {
        let ti = self.temp_i;
        self.slots[ti].data = data;
        self.slots[ti].stamp = stamp;
    }
}

} // verus!
