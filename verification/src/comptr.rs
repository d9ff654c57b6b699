//! A reference-counted handle over externally counted objects, with safe
//! capability querying.
//!
//! A native object of the component model is owned through explicit
//! increment/decrement calls and asked at run time whether it also supports
//! an extended capability. Here the object world is explicit: an `RcHost`
//! table stands for the external runtime and holds each object's observable
//! retain count and capability set, and every handle operation says exactly
//! how it moves that count. A handle is consumed by its drop operation, so a
//! double drop of the same handle is a type error, not a runtime hazard.

use vstd::prelude::*;

verus! {

/// A counted object as the handles observe it: its retain count, whether it
/// has been finalized, and the capabilities it supports, one bit per
/// capability tag (tags `0..64`).
#[derive(Clone, Copy, Debug, PartialEq, Eq, Structural)]
pub struct CountedObject {
    pub ref_count: u64,
    pub finalized: bool,
    pub capabilities: u64,
}

/// Whether a capability mask declares support for the given tag.
pub open spec fn spec_has_capability(mask: u64, capability: u64) -> bool {
    mask & (1u64 << capability) != 0u64
}

/// The table of counted objects that handles may reference: it stands for
/// the external runtime owning the native objects.
#[derive(Debug)]
pub struct RcHost {
    pub objects: Vec<CountedObject>,
}

impl RcHost {
    pub fn new() -> (h: RcHost)
        ensures
            h.objects@.len() == 0,
    {
        RcHost { objects: Vec::new() }
    }

    /// Create a counted object with the given capability mask and an initial
    /// retain count held by the runtime itself; returns its identity.
    pub fn register(&mut self, capabilities: u64, initial_count: u64) -> (id: usize)
        ensures
            id == old(self).objects@.len(),
            final(self).objects@ == old(self).objects@.push(
                CountedObject { ref_count: initial_count, finalized: false, capabilities },
            ),
    {
        let id = self.objects.len();
        self.objects.push(CountedObject { ref_count: initial_count, finalized: false, capabilities });
        id
    }

    /// The object's observable retain count.
    pub fn ref_count(&self, id: usize) -> (c: u64)
        requires
            id < self.objects@.len(),
        ensures
            c == self.objects@[id as int].ref_count,
    {
        self.objects[id].ref_count
    }

    /// Whether the object has been finalized (its count reached zero).
    pub fn is_finalized(&self, id: usize) -> (f: bool)
        requires
            id < self.objects@.len(),
        ensures
            f == self.objects@[id as int].finalized,
    {
        self.objects[id].finalized
    }
}

/// An owning handle to at most one counted object: either null or a
/// reference to an object of the host, viewed as the interface named by a
/// capability tag. Handles alias freely through explicit cloning; ownership
/// leaves a handle only by consuming it.
#[derive(Debug)]
pub struct RcInterface {
    /// The referenced object's identity in the host table, or nothing for
    /// the distinguished null handle.
    pub target: Option<usize>,
    /// The capability tag this handle was obtained as.
    pub iface: u64,
}

impl RcInterface {
    /// Null handles own nothing and compare equal to each other.
    pub open spec fn spec_is_null(self) -> bool {
        self.target is None
    }

    /// The handle points into the host table.
    pub open spec fn valid(self, host: RcHost) -> bool {
        match self.target {
            Option::None => true,
            Option::Some(i) => i < host.objects@.len(),
        }
    }

    /// The handle's object is still alive: it has not been finalized and
    /// holds at least the reference this handle owns.
    pub open spec fn live(self, host: RcHost) -> bool {
        &&& self.valid(host)
        &&& match self.target {
            Option::None => true,
            Option::Some(i) => !host.objects@[i as int].finalized
                && host.objects@[i as int].ref_count >= 1,
        }
    }

    /// The distinguished empty handle.
    pub fn null() -> (h: RcInterface)
        ensures
            h.spec_is_null(),
            h.target is None,
    {
        RcInterface { target: None, iface: 0 }
    }

    pub fn is_null(&self) -> (b: bool)
        ensures
            b == self.spec_is_null(),
    {
        match self.target {
            None => true,
            Some(_) => false,
        }
    }

    /// Take ownership of a reference that is already counted (an object
    /// handed over in the "out parameter" convention): the count is not
    /// touched, the caller must actually own the reference it hands over.
    pub fn adopt(host: &RcHost, id: usize, iface: u64) -> (h: RcInterface)
        requires
            id < host.objects@.len(),
            !host.objects@[id as int].finalized,
            host.objects@[id as int].ref_count >= 1,
        ensures
            h.target == Some(id),
            h.iface == iface,
    {
        RcInterface { target: Some(id), iface }
    }

    /// Share ownership of an existing object: increments its count and
    /// returns a handle owning the new reference.
    pub fn borrow(host: &mut RcHost, id: usize, iface: u64) -> (h: RcInterface)
        requires
            id < old(host).objects@.len(),
            !old(host).objects@[id as int].finalized,
            old(host).objects@[id as int].ref_count >= 1,
            old(host).objects@[id as int].ref_count < u64::MAX,
        ensures
            h.target == Some(id),
            h.iface == iface,
            final(host).objects@ == old(host).objects@.update(
                id as int,
                CountedObject {
                    ref_count: (old(host).objects@[id as int].ref_count + 1) as u64,
                    ..old(host).objects@[id as int]
                },
            ),
    {
        let c = host.objects[id].ref_count;
        host.objects[id].ref_count = c + 1;
        RcInterface { target: Some(id), iface }
    }

    /// A new handle aliasing the same object: increments the count by
    /// exactly one. Cloning the null handle yields the null handle and
    /// leaves the host untouched.
    pub fn clone_handle(&self, host: &mut RcHost) -> (h: RcInterface)
        requires
            self.valid(*old(host)),
            self.live(*old(host)),
            match self.target {
                Option::None => true,
                Option::Some(i) => old(host).objects@[i as int].ref_count < u64::MAX,
            },
        ensures
            h.target == self.target,
            h.iface == self.iface,
            match self.target {
                Option::None => final(host).objects@ == old(host).objects@,
                Option::Some(i) => final(host).objects@ == old(host).objects@.update(
                    i as int,
                    CountedObject {
                        ref_count: (old(host).objects@[i as int].ref_count + 1) as u64,
                        ..old(host).objects@[i as int]
                    },
                ),
            },
    {
        match self.target {
            None => RcInterface { target: None, iface: self.iface },
            Some(i) => {
                let c = host.objects[i].ref_count;
                host.objects[i].ref_count = c + 1;
                RcInterface { target: Some(i), iface: self.iface }
            },
        }
    }

    /// Give up the reference this handle owns, consuming the handle:
    /// decrements the count by exactly one and finalizes the object when the
    /// count reaches zero. Dropping the null handle does nothing. A drop
    /// that would underflow — the handle claimed a reference the object no
    /// longer holds — is flagged by returning false and changes nothing.
    pub fn drop_handle(self, host: &mut RcHost) -> (ok: bool)
        requires
            self.valid(*old(host)),
        ensures
            match self.target {
                Option::None => ok && final(host).objects@ == old(host).objects@,
                Option::Some(i) => {
                    if old(host).objects@[i as int].ref_count >= 1 {
                        ok && final(host).objects@ == old(host).objects@.update(
                            i as int,
                            CountedObject {
                                ref_count: (old(host).objects@[i as int].ref_count - 1) as u64,
                                finalized: old(host).objects@[i as int].ref_count == 1
                                    || old(host).objects@[i as int].finalized,
                                ..old(host).objects@[i as int]
                            },
                        )
                    } else {
                        !ok && final(host).objects@ == old(host).objects@
                    }
                },
            },
    {
        match self.target {
            None => true,
            Some(i) => {
                let c = host.objects[i].ref_count;
                if c == 0 {
                    return false;
                }
                host.objects[i].ref_count = c - 1;
                if c == 1 {
                    host.objects[i].finalized = true;
                }
                proof {
                    assert(final(host).objects@ =~= old(host).objects@.update(
                        i as int,
                        CountedObject {
                            ref_count: (old(host).objects@[i as int].ref_count - 1) as u64,
                            finalized: old(host).objects@[i as int].ref_count == 1
                                || old(host).objects@[i as int].finalized,
                            ..old(host).objects@[i as int]
                        },
                    ));
                }
                true
            },
        }
    }

    /// Hand the owned reference out of the handle, consuming it: the count
    /// is not touched, and the caller is now responsible for the reference
    /// the returned identity carries. Forgetting the null handle yields
    /// nothing.
    pub fn forget(self) -> (t: Option<usize>)
        ensures
            t == self.target,
    {
        self.target
    }

    /// Ask the object whether it also supports `capability` (a tag under
    /// 64): on support, a new owning handle to the same object viewed as
    /// that capability, with the count incremented; otherwise nothing, with
    /// the host untouched. Querying the null handle yields nothing.
    pub fn query_capability(&self, host: &mut RcHost, capability: u64) -> (r: Option<
        RcInterface,
    >)
        requires
            capability < 64,
            self.valid(*old(host)),
            self.live(*old(host)),
            match self.target {
                Option::None => true,
                Option::Some(i) => old(host).objects@[i as int].ref_count < u64::MAX,
            },
        ensures
            match self.target {
                Option::None => r is None && final(host).objects@ == old(host).objects@,
                Option::Some(i) => {
                    if spec_has_capability(old(host).objects@[i as int].capabilities, capability) {
                        match r {
                            Option::Some(h) => h.target == self.target && h.iface == capability
                                && final(host).objects@ == old(host).objects@.update(
                                i as int,
                                CountedObject {
                                    ref_count: (old(host).objects@[i as int].ref_count + 1) as u64,
                                    ..old(host).objects@[i as int]
                                },
                            ),
                            Option::None => false,
                        }
                    } else {
                        r is None && final(host).objects@ == old(host).objects@
                    }
                },
            },
    {
        match self.target {
            None => None,
            Some(i) => {
                let mask = host.objects[i].capabilities;
                if mask & (1u64 << capability) != 0u64 {
                    let c = host.objects[i].ref_count;
                    host.objects[i].ref_count = c + 1;
                    Some(RcInterface { target: Some(i), iface: capability })
                } else {
                    None
                }
            },
        }
    }
}

impl PartialEq for RcInterface {
    /// Identity comparison: two handles are equal when they reference the
    /// same object (or are both null), whatever capability they were
    /// obtained as.
    fn eq(&self, other: &RcInterface) -> (r: bool) {
        match (self.target, other.target) {
            (None, None) => true,
            (Some(a), Some(b)) => a == b,
            _ => false,
        }
    }
}

impl vstd::std_specs::cmp::PartialEqSpecImpl for RcInterface {
    open spec fn obeys_eq_spec() -> bool {
        true
    }

    open spec fn eq_spec(&self, other: &RcInterface) -> bool {
        self.target == other.target
    }
}

impl Eq for RcInterface {}

/// One step of a handle's life that moves its object's count.
#[derive(Clone, Copy, Debug, PartialEq, Eq, Structural)]
pub enum RcOp {
    CloneHandle,
    DropHandle,
}

/// The retain count after a sequence of clone and drop operations, each
/// moving the count by exactly one, as `clone_handle` and `drop_handle`
/// ensure.
pub open spec fn count_after(start: int, ops: Seq<RcOp>) -> int
    decreases ops.len(),
{
    if ops.len() == 0 {
        start
    } else {
        let moved = match ops[0] {
            RcOp::CloneHandle => start + 1,
            RcOp::DropHandle => start - 1,
        };
        count_after(moved, ops.drop_first())
    }
}

/// How many of the operations are clones.
pub open spec fn clone_count(ops: Seq<RcOp>) -> int
    decreases ops.len(),
{
    if ops.len() == 0 {
        0
    } else {
        (if ops[0] is CloneHandle {
            1int
        } else {
            0int
        }) + clone_count(ops.drop_first())
    }
}

/// How many of the operations are drops.
pub open spec fn drop_count(ops: Seq<RcOp>) -> int
    decreases ops.len(),
{
    if ops.len() == 0 {
        0
    } else {
        (if ops[0] is DropHandle {
            1int
        } else {
            0int
        }) + drop_count(ops.drop_first())
    }
}

/// Reference-count balance: across any sequence of clone and drop
/// operations the object's observable count moves by the number of clones
/// minus the number of drops, so once every handle taken is dropped — as
/// many drops as clones — the count stands exactly where it started.
pub proof fn lemma_refcount_balance(start: int, ops: Seq<RcOp>)
    ensures
        count_after(start, ops) == start + clone_count(ops) - drop_count(ops),
        clone_count(ops) == drop_count(ops) ==> count_after(start, ops) == start,
    decreases ops.len(),
{
    if ops.len() > 0 {
        let moved = match ops[0] {
            RcOp::CloneHandle => start + 1,
            RcOp::DropHandle => start - 1,
        };
        lemma_refcount_balance(moved, ops.drop_first());
    }
}

} // verus!
