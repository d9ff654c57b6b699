//! Device-topology value types of the binding layer, modeled as plain data:
//! a graphics factory enumerates adapters, an adapter enumerates the outputs
//! attached to it. The native enumeration calls hand the entries out one by
//! one; here each collection is held as a list and handed out whole.

use vstd::prelude::*;

verus! {

/// One display output of an adapter, identified by its position on the
/// adapter.
#[derive(Clone, Copy, Debug, PartialEq, Eq, Structural)]
pub struct Output {
    pub id: u32,
}

impl Output {
    pub fn new(id: u32) -> (o: Output)
        ensures
            o.id == id,
    {
        Output { id }
    }
}

/// One graphics adapter: its identity and the outputs attached to it.
#[derive(Debug)]
pub struct Adapter1 {
    pub id: u32,
    pub outputs: Vec<Output>,
}

impl Adapter1 {
    pub fn new(id: u32, outputs: Vec<Output>) -> (a: Adapter1)
        ensures
            a.id == id,
            a.outputs@ == outputs@,
    {
        Adapter1 { id, outputs }
    }

    /// The outputs attached to this adapter, in enumeration order.
    pub fn outputs(&self) -> (os: Vec<Output>)
        ensures
            os@ == self.outputs@,
    {
        let mut os: Vec<Output> = Vec::new();
        let mut k: usize = 0;
        while k < self.outputs.len()
            invariant
                k <= self.outputs@.len(),
                os@ == self.outputs@.take(k as int),
            decreases self.outputs@.len() - k,
        {
            os.push(self.outputs[k]);
            proof {
                assert(os@ =~= self.outputs@.take(k + 1));
            }
            k += 1;
        }
        proof {
            assert(os@ =~= self.outputs@);
        }
        os
    }
}

impl Clone for Adapter1 {
    fn clone(&self) -> (a: Adapter1)
        ensures
            a.id == self.id,
            a.outputs@ == self.outputs@,
    {
        Adapter1 { id: self.id, outputs: self.outputs() }
    }
}

/// A graphics factory: the adapters of the system, in enumeration order.
#[derive(Debug)]
pub struct Factory2 {
    pub adapters: Vec<Adapter1>,
}

impl Factory2 {
    pub fn new(adapters: Vec<Adapter1>) -> (f: Factory2)
        ensures
            f.adapters@ == adapters@,
    {
        Factory2 { adapters }
    }

    /// The system's adapters, in enumeration order.
    pub fn adapters1(&self) -> (a_list: Vec<Adapter1>)
        ensures
            a_list@.len() == self.adapters@.len(),
            forall|k: int| 0 <= k < a_list@.len() ==> (#[trigger] a_list@[k]).id
                == self.adapters@[k].id && a_list@[k].outputs@ == self.adapters@[k].outputs@,
    {
        let mut a_list: Vec<Adapter1> = Vec::new();
        let mut k: usize = 0;
        while k < self.adapters.len()
            invariant
                k <= self.adapters@.len(),
                a_list@.len() == k,
                forall|j: int| 0 <= j < k ==> (#[trigger] a_list@[j]).id == self.adapters@[j].id
                    && a_list@[j].outputs@ == self.adapters@[j].outputs@,
            decreases self.adapters@.len() - k,
        {
            a_list.push(self.adapters[k].clone());
            k += 1;
        }
        a_list
    }
}

} // verus!
