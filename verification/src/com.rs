//! Reference-counted native-handle ownership.
//!
//! `ComPtr` is a smart handle to a reference-counted native object.  The
//! native side is modelled by `RefRegistry`, a table of reference counts:
//! creating an object hands the caller a handle owning one reference,
//! cloning a handle increments the count, releasing decrements it, and the
//! object dies exactly when the count reaches zero.  A null handle (address
//! zero) holds no reference and is a valid, inert value.

use vstd::prelude::*;

verus! {

/// Status code returned when a checked interface cast fails, mirroring the
/// native "interface not supported" result.
pub const CAST_NOT_SUPPORTED: i32 = -2147467262;

/// A smart handle to a reference-counted native object, identified by its
/// address.  Address `0` is the null handle.  Equality and hashing go by
/// the underlying address.
#[derive(PartialEq, Eq, Structural, Hash, Debug)]
pub struct ComPtr {
    pub ptr: u64,
}

impl ComPtr {
    /// The null handle: owns no reference.
    pub fn empty() -> (r: Self)
        ensures
            r.ptr == 0,
    {
        ComPtr { ptr: 0 }
    }

    /// Takes ownership of exactly one existing reference held at `ptr`
    /// (or of nothing, when `ptr` is null).
    pub fn from_ptr(ptr: u64) -> (r: Self)
        ensures
            r.ptr == ptr,
    {
        ComPtr { ptr }
    }

    /// The underlying address, for read-only use.
    pub fn as_ptr(&self) -> (r: u64)
        ensures
            r == self.ptr,
    {
        self.ptr
    }

    /// The underlying address, for native calls that mutate the object.
    pub fn as_ptr_mut(&self) -> (r: u64)
        ensures
            r == self.ptr,
    {
        self.ptr
    }

    /// Whether this is the null handle.
    pub fn is_null(&self) -> (r: bool)
        ensures
            r == (self.ptr == 0),
    {
        self.ptr == 0
    }

    /// Surrenders the handle without releasing its reference; the caller
    /// becomes responsible for the reference.
    pub fn into_ptr(self) -> (r: u64)
        ensures
            r == self.ptr,
    {
        self.ptr
    }
}

/// The native side of the reference-counting protocol: one entry per object,
/// holding its current reference count and the set of interface ids the
/// object supports (for checked casts).  The object with address `a`
/// (for `1 <= a <= counts.len()`) lives at entry `a - 1`; a count of zero
/// means the object has been destroyed.
pub struct RefRegistry {
    pub counts: Vec<u64>,
    pub ifaces: Vec<Vec<u32>>,
}

impl RefRegistry {
    pub open spec fn well_formed(self) -> bool {
        self.counts@.len() == self.ifaces@.len()
    }

    /// `ptr` names an entry of the table (live or destroyed).
    pub open spec fn in_table(self, ptr: u64) -> bool {
        1 <= ptr && ptr <= self.counts@.len()
    }

    pub open spec fn count_of(self, ptr: u64) -> u64 {
        self.counts@[ptr as int - 1]
    }

    /// `ptr` names an object that still holds at least one reference.
    pub open spec fn live(self, ptr: u64) -> bool {
        self.in_table(ptr) && self.count_of(ptr) >= 1
    }

    pub open spec fn supports(self, ptr: u64, iface: u32) -> bool {
        self.ifaces@[ptr as int - 1]@.contains(iface)
    }

    /// An empty table: no native objects yet.
    pub fn new() -> (r: Self)
        ensures
            r.counts@.len() == 0,
            r.ifaces@.len() == 0,
            r.well_formed(),
    {
        RefRegistry { counts: Vec::new(), ifaces: Vec::new() }
    }

    /// A native factory call: creates an object supporting `ifaces` and
    /// returns a handle owning its initial, single reference.
    pub fn create(&mut self, ifaces: Vec<u32>) -> (r: ComPtr)
        requires
            old(self).well_formed(),
            old(self).counts@.len() < usize::MAX,
        ensures
            final(self).well_formed(),
            r.ptr == old(self).counts@.len() + 1,
            final(self).counts@ == old(self).counts@.push(1u64),
            final(self).ifaces@ == old(self).ifaces@.push(ifaces),
            final(self).live(r.ptr),
            final(self).count_of(r.ptr) == 1,
    {
        self.counts.push(1);
        self.ifaces.push(ifaces);
        ComPtr { ptr: self.counts.len() as u64 }
    }

    /// Clones a handle: increments the object's reference count and returns
    /// a new handle aliasing the same object.
    pub fn clone_ref(&mut self, p: &ComPtr) -> (r: ComPtr)
        requires
            old(self).live(p.ptr),
            old(self).count_of(p.ptr) < u64::MAX,
        ensures
            r.ptr == p.ptr,
            final(self).counts@ == old(self).counts@.update(
                p.ptr as int - 1,
                (old(self).count_of(p.ptr) + 1) as u64,
            ),
            final(self).ifaces == old(self).ifaces,
            final(self).count_of(p.ptr) == old(self).count_of(p.ptr) + 1,
            final(self).live(p.ptr),
    {
        // reading the length pins the table size within the usize range
        let _len: usize = self.counts.len();
        let idx: usize = (p.ptr - 1) as usize;
        let c: u64 = self.counts[idx];
        self.counts[idx] = c + 1;
        ComPtr { ptr: p.ptr }
    }

    /// Releases a handle's reference.  On a null handle this is a no-op; on
    /// a live object the count drops by one, destroying the object exactly
    /// when the last reference goes away.
    pub fn release(&mut self, p: ComPtr)
        requires
            p.ptr == 0 || old(self).live(p.ptr),
        ensures
            p.ptr == 0 ==> *final(self) == *old(self),
            p.ptr != 0 ==> final(self).counts@ == old(self).counts@.update(
                p.ptr as int - 1,
                (old(self).count_of(p.ptr) - 1) as u64,
            ),
            p.ptr != 0 ==> final(self).count_of(p.ptr) == old(self).count_of(p.ptr) - 1,
            final(self).ifaces == old(self).ifaces,
    {
        if p.ptr != 0 {
            let _len: usize = self.counts.len();
            let idx: usize = (p.ptr - 1) as usize;
            let c: u64 = self.counts[idx];
            self.counts[idx] = c - 1;
        }
    }

    /// A checked cast to a related interface.  On a null handle it returns a
    /// null handle; on success it returns a handle owning its own, freshly
    /// incremented reference; when the object does not support the interface
    /// it fails with `CAST_NOT_SUPPORTED` and leaves the count unchanged.
    pub fn cast(&mut self, p: &ComPtr, iface: u32) -> (r: Result<ComPtr, i32>)
        requires
            old(self).well_formed(),
            p.ptr != 0 ==> old(self).live(p.ptr) && old(self).count_of(p.ptr) < u64::MAX,
        ensures
            final(self).well_formed(),
            p.ptr == 0 ==> *final(self) == *old(self) && (r matches Ok(q) && q.ptr == 0),
            p.ptr != 0 && old(self).supports(p.ptr, iface) ==> {
                &&& (r matches Ok(q) && q.ptr == p.ptr)
                &&& final(self).counts@ == old(self).counts@.update(
                    p.ptr as int - 1,
                    (old(self).count_of(p.ptr) + 1) as u64,
                )
                &&& final(self).ifaces == old(self).ifaces
            },
            p.ptr != 0 && !old(self).supports(p.ptr, iface) ==> *final(self) == *old(self) && r == Err::<
                ComPtr,
                i32,
            >(CAST_NOT_SUPPORTED),
    {
        if p.ptr == 0 {
            return Ok(ComPtr { ptr: 0 });
        }
        let _len: usize = self.counts.len();
        let idx: usize = (p.ptr - 1) as usize;
        if iface_list_contains(&self.ifaces[idx], iface) {
            let c: u64 = self.counts[idx];
            self.counts[idx] = c + 1;
            Ok(ComPtr { ptr: p.ptr })
        } else {
            Err(CAST_NOT_SUPPORTED)
        }
    }
}

fn iface_list_contains(v: &Vec<u32>, x: u32) -> (r: bool)
    ensures
        r == v@.contains(x),
{
    let mut i: usize = 0;
    while i < v.len()
        invariant
            i <= v@.len(),
            forall|j: int| 0 <= j < i ==> v@[j] != x,
        decreases v@.len() - i,
    {
        if v[i] == x {
            assert(v@.contains(x));
            return true;
        }
        i += 1;
    }
    false
}

/// One step in the life of a handle to a single object: cloning it or
/// dropping (releasing) it.
pub enum RefOp {
    Acquire,
    Release,
}

pub open spec fn ref_op_delta(op: RefOp) -> int {
    match op {
        RefOp::Acquire => 1,
        RefOp::Release => -1,
    }
}

/// The reference count after applying a sequence of clone/drop steps.
pub open spec fn apply_ref_ops(count: int, ops: Seq<RefOp>) -> int
    decreases ops.len(),
{
    if ops.len() == 0 {
        count
    } else {
        apply_ref_ops(count + ref_op_delta(ops[0]), ops.drop_first())
    }
}

/// A sequence of steps is valid when every step acts on a still-live object:
/// the count is at least one before each step.
pub open spec fn ref_ops_valid(count: int, ops: Seq<RefOp>) -> bool
    decreases ops.len(),
{
    if ops.len() == 0 {
        true
    } else {
        count >= 1 && ref_ops_valid(count + ref_op_delta(ops[0]), ops.drop_first())
    }
}

pub open spec fn count_acquires(ops: Seq<RefOp>) -> int
    decreases ops.len(),
{
    if ops.len() == 0 {
        0
    } else {
        (if ops[0] is Acquire {
            1int
        } else {
            0int
        }) + count_acquires(ops.drop_first())
    }
}

pub open spec fn count_releases(ops: Seq<RefOp>) -> int
    decreases ops.len(),
{
    if ops.len() == 0 {
        0
    } else {
        (if ops[0] is Release {
            1int
        } else {
            0int
        }) + count_releases(ops.drop_first())
    }
}

/// How many steps of the sequence bring the count to zero, i.e. destroy the
/// object.
pub open spec fn drops_to_zero(count: int, ops: Seq<RefOp>) -> int
    decreases ops.len(),
{
    if ops.len() == 0 {
        0
    } else {
        (if count + ref_op_delta(ops[0]) == 0 {
            1int
        } else {
            0int
        }) + drops_to_zero(count + ref_op_delta(ops[0]), ops.drop_first())
    }
}

/// Reference-count discipline, first half: over any sequence of clone/drop
/// steps, the net change of the count is the number of clones minus the
/// number of drops.
pub proof fn lemma_refcount_net_change(count: int, ops: Seq<RefOp>)
    ensures
        apply_ref_ops(count, ops) == count + count_acquires(ops) - count_releases(ops),
    decreases ops.len(),
{
    if ops.len() > 0 {
        lemma_refcount_net_change(count + ref_op_delta(ops[0]), ops.drop_first());
    }
}

/// Reference-count discipline, second half: a valid sequence of clone/drop
/// steps destroys the object at most once, and does destroy it exactly once
/// when and only when the final count is zero.
pub proof fn lemma_released_exactly_once(count: int, ops: Seq<RefOp>)
    requires
        count >= 1,
        ref_ops_valid(count, ops),
    ensures
        apply_ref_ops(count, ops) >= 0,
        drops_to_zero(count, ops) <= 1,
        (apply_ref_ops(count, ops) == 0) <==> (drops_to_zero(count, ops) == 1),
    decreases ops.len(),
{
    if ops.len() > 0 {
        let next = count + ref_op_delta(ops[0]);
        let rest = ops.drop_first();
        if next == 0 {
            // The object is gone; validity forbids any further step.
            assert(ref_ops_valid(next, rest));
            assert(rest.len() == 0);
            assert(apply_ref_ops(next, rest) == 0);
            assert(drops_to_zero(next, rest) == 0);
            assert(drops_to_zero(count, ops) == 1);
        } else {
            lemma_released_exactly_once(next, rest);
            assert(apply_ref_ops(count, ops) == apply_ref_ops(next, rest));
            assert(drops_to_zero(count, ops) == drops_to_zero(next, rest));
        }
    }
}

} // verus!
