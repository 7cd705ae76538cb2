//! The flat, ordered sequence of raw register records that a CPUID query
//! produces, as the decoder consumes it.

use vstd::prelude::*;

verus! {

/// One raw record: the `(function, index)` pair that addressed the query
/// and the four registers it returned.
#[derive(Debug, Clone, Copy, PartialEq, Eq, Structural)]
pub struct RawEntry {
    /// The leaf number the record answers.
    pub function: u32,
    /// The sub-leaf number the record answers.
    pub index: u32,
    /// Register EAX.
    pub eax: u32,
    /// Register EBX.
    pub ebx: u32,
    /// Register ECX.
    pub ecx: u32,
    /// Register EDX.
    pub edx: u32,
}

/// An ordered sequence of raw records, in the walk order the decoder
/// expects: ascending leaf, then ascending sub-leaf.
#[derive(Debug, Clone, PartialEq, Eq)]
pub struct RawCpuid {
    /// The records, in query order.
    pub entries: Vec<RawEntry>,
}

impl View for RawCpuid {
    type V = Seq<RawEntry>;

    open spec fn view(&self) -> Seq<RawEntry> {
        self.entries@
    }
}

impl RawCpuid {
    /// Wraps a sequence of records.
    pub fn new(entries: Vec<RawEntry>) -> (r: RawCpuid)
        ensures
            r@ == entries@,
    {
        RawCpuid { entries }
    }

    /// Number of records.
    pub fn len(&self) -> (r: usize)
        ensures
            r == self@.len(),
    {
        self.entries.len()
    }

    /// The record at position `i`.
    pub fn entry(&self, i: usize) -> (r: &RawEntry)
        requires
            i < self@.len(),
        ensures
            *r == self@[i as int],
    {
        &self.entries[i]
    }

    /// The first record answering `(function, index)`, if any.
    pub fn get(&self, function: u32, index: u32) -> (r: Option<&RawEntry>)
        ensures
            match r {
                Some(e) => exists|i: int|
                    {
                        &&& 0 <= i < self@.len()
                        &&& *e == self@[i]
                        &&& (#[trigger] self@[i]).function == function
                        &&& self@[i].index == index
                        &&& forall|j: int|
                            0 <= j < i ==> !((#[trigger] self@[j]).function == function
                                && self@[j].index == index)
                    },
                None => forall|j: int|
                    0 <= j < self@.len() ==> !((#[trigger] self@[j]).function == function
                        && self@[j].index == index),
            },
    {
        let n = self.entries.len();
        let mut i: usize = 0;
        while i < n
            invariant
                n == self@.len(),
                i <= n,
                forall|j: int|
                    0 <= j < i ==> !((#[trigger] self@[j]).function == function && self@[j].index
                        == index),
            decreases n - i,
        {
            if self.entries[i].function == function && self.entries[i].index == index {
                return Some(&self.entries[i]);
            }
            i = i + 1;
        }
        None
    }
}

} // verus!
