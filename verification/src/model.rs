//! The nested, typed model that decoding a raw record sequence produces.

use vstd::prelude::*;

use crate::raw::RawEntry;

verus! {

/// A generic leaf: one query result of four registers.
#[derive(Debug, Clone, Copy, PartialEq, Eq, Structural)]
pub struct Leaf<A, B, C, D> {
    /// Register EAX.
    pub eax: A,
    /// Register EBX.
    pub ebx: B,
    /// Register ECX.
    pub ecx: C,
    /// Register EDX.
    pub edx: D,
}

/// A leaf whose four registers are kept as raw 32-bit scalars.
pub type RegLeaf = Leaf<u32, u32, u32, u32>;

/// The four registers of a raw record, as a leaf.
pub open spec fn leaf_of(e: RawEntry) -> RegLeaf {
    Leaf { eax: e.eax, ebx: e.ebx, ecx: e.ecx, edx: e.edx }
}

/// Builds the leaf holding the four registers of one raw record.
pub fn read_leaf(e: &RawEntry) -> (r: RegLeaf)
    ensures
        r == leaf_of(*e),
{
    Leaf { eax: e.eax, ebx: e.ebx, ecx: e.ecx, edx: e.edx }
}

/// The word whose little-endian bytes these are.
pub open spec fn word_of_bytes(b: [u8; 4]) -> u32 {
    (b@[0] + b@[1] * 0x100 + b@[2] * 0x10000 + b@[3] * 0x1000000) as u32
}

/// Splits a word into its little-endian bytes.
pub fn bytes_of_word(x: u32) -> (r: [u8; 4])
    ensures
        word_of_bytes(r) == x,
{
    let b0: u8 = (x & 0xff) as u8;
    let b1: u8 = ((x >> 8) & 0xff) as u8;
    let b2: u8 = ((x >> 16) & 0xff) as u8;
    let b3: u8 = ((x >> 24) & 0xff) as u8;
    proof {
        assert(((x & 0xff) as u8) + (((x >> 8) & 0xff) as u8) * 0x100 + (((x >> 16) & 0xff) as u8)
            * 0x10000 + (((x >> 24) & 0xff) as u8) * 0x1000000 == x) by (bit_vector);
    }
    let r: [u8; 4] = [b0, b1, b2, b3];
    proof {
        assert(r@[0] == b0 && r@[1] == b1 && r@[2] == b2 && r@[3] == b3);
    }
    r
}

/// The cache, TLB and prefetch descriptor bytes of the second basic leaf;
/// each register is kept as its four descriptor bytes.
#[derive(Debug, Clone, Copy, PartialEq, Eq)]
pub struct TlbCachePrefetchInfomation {
    /// Descriptor bytes of register EAX.
    pub eax: [u8; 4],
    /// Descriptor bytes of register EBX.
    pub ebx: [u8; 4],
    /// Descriptor bytes of register ECX.
    pub ecx: [u8; 4],
    /// Descriptor bytes of register EDX.
    pub edx: [u8; 4],
}

impl TlbCachePrefetchInfomation {
    /// The four registers the descriptor bytes came from.
    pub open spec fn spec_words(self) -> RegLeaf {
        Leaf {
            eax: word_of_bytes(self.eax),
            ebx: word_of_bytes(self.ebx),
            ecx: word_of_bytes(self.ecx),
            edx: word_of_bytes(self.edx),
        }
    }

    /// Splits the four registers of one query result into their descriptor
    /// bytes.
    pub fn from_words(eax: u32, ebx: u32, ecx: u32, edx: u32) -> (r: TlbCachePrefetchInfomation)
        ensures
            r.spec_words() == (Leaf { eax, ebx, ecx, edx }),
    {
        TlbCachePrefetchInfomation {
            eax: bytes_of_word(eax),
            ebx: bytes_of_word(ebx),
            ecx: bytes_of_word(ecx),
            edx: bytes_of_word(edx),
        }
    }
}

/// The abstract value of a decoded model: what each leaf of the nested
/// structure holds, with collections as sequences.
pub struct CpuidView {
    /// Highest basic leaf and vendor identification registers.
    pub leaf_0: RegLeaf,
    /// Basic feature information.
    pub leaf_1: RegLeaf,
    /// Cache, TLB and prefetch descriptors.
    pub leaf_2: RegLeaf,
    /// Deterministic cache parameters, one entry per cache level.
    pub leaf_4: Seq<RegLeaf>,
    /// MONITOR/MWAIT line sizes and extensions.
    pub leaf_5: RegLeaf,
    /// Thermal and power management.
    pub leaf_6: RegLeaf,
    /// Structured extended features: sub-leaf 0, and sub-leaf 1 when sub-
    /// leaf 0 announces it.
    pub leaf_7: (RegLeaf, Option<RegLeaf>),
    /// Direct cache access information.
    pub leaf_9: RegLeaf,
    /// Architectural performance monitoring.
    pub leaf_a: RegLeaf,
    /// Extended topology levels, up to and including the terminating one.
    pub leaf_b: Seq<RegLeaf>,
    /// Processor extended state: sub-leaves 0 and 1, then the remaining
    /// sub-leaves.
    pub leaf_d: (RegLeaf, RegLeaf, Seq<RegLeaf>),
    /// RDT monitoring: sub-leaf 0, and sub-leaf 1 when announced.
    pub leaf_f: (RegLeaf, Option<RegLeaf>),
    /// RDT allocation: sub-leaf 0, and sub-leaves 1 to 3 when announced.
    pub leaf_10: (RegLeaf, Option<RegLeaf>, Option<RegLeaf>, Option<RegLeaf>),
    /// SGX capability sub-leaf 0; further sub-leaves are not modelled.
    pub leaf_12: (RegLeaf, Option<RegLeaf>, Seq<RegLeaf>),
    /// Processor trace: sub-leaf 0, and sub-leaf 1 when announced.
    pub leaf_14: (RegLeaf, Option<RegLeaf>),
    /// Time stamp counter and crystal clock.
    pub leaf_15: RegLeaf,
    /// Processor frequency information.
    pub leaf_16: RegLeaf,
    /// Highest extended leaf.
    pub leaf_80000000: RegLeaf,
    /// Extended feature bits.
    pub leaf_80000001: RegLeaf,
    /// Brand string, first part.
    pub leaf_80000002: RegLeaf,
    /// Brand string, second part.
    pub leaf_80000003: RegLeaf,
    /// Brand string, third part.
    pub leaf_80000004: RegLeaf,
    /// L1 cache and TLB information.
    pub leaf_80000005: RegLeaf,
    /// L2 cache information.
    pub leaf_80000006: RegLeaf,
    /// Invariant TSC.
    pub leaf_80000007: RegLeaf,
    /// Address sizes.
    pub leaf_80000008: RegLeaf,
}

/// The decoded model: one field per supported leaf, filled by the decoder
/// and immutable thereafter.
#[derive(Debug, PartialEq)]
pub struct IntelCpuid {
    /// Highest basic leaf and vendor identification registers.
    pub leaf_0: RegLeaf,
    /// Basic feature information.
    pub leaf_1: RegLeaf,
    /// Cache, TLB and prefetch descriptors.
    pub leaf_2: TlbCachePrefetchInfomation,
    /// Deterministic cache parameters, one entry per cache level.
    pub leaf_4: Vec<RegLeaf>,
    /// MONITOR/MWAIT line sizes and extensions.
    pub leaf_5: RegLeaf,
    /// Thermal and power management.
    pub leaf_6: RegLeaf,
    /// Structured extended features: sub-leaf 0, and sub-leaf 1 when sub-
    /// leaf 0 announces it.
    pub leaf_7: (RegLeaf, Option<RegLeaf>),
    /// Direct cache access information.
    pub leaf_9: RegLeaf,
    /// Architectural performance monitoring.
    pub leaf_a: RegLeaf,
    /// Extended topology levels, up to and including the terminating one.
    pub leaf_b: Vec<RegLeaf>,
    /// Processor extended state: sub-leaves 0 and 1, then the remaining
    /// sub-leaves.
    pub leaf_d: (RegLeaf, RegLeaf, Vec<RegLeaf>),
    /// RDT monitoring: sub-leaf 0, and sub-leaf 1 when announced.
    pub leaf_f: (RegLeaf, Option<RegLeaf>),
    /// RDT allocation: sub-leaf 0, and sub-leaves 1 to 3 when announced.
    pub leaf_10: (RegLeaf, Option<RegLeaf>, Option<RegLeaf>, Option<RegLeaf>),
    /// SGX capability sub-leaf 0; further sub-leaves are not modelled.
    pub leaf_12: (RegLeaf, Option<RegLeaf>, Vec<RegLeaf>),
    /// Processor trace: sub-leaf 0, and sub-leaf 1 when announced.
    pub leaf_14: (RegLeaf, Option<RegLeaf>),
    /// Time stamp counter and crystal clock.
    pub leaf_15: RegLeaf,
    /// Processor frequency information.
    pub leaf_16: RegLeaf,
    /// Highest extended leaf.
    pub leaf_80000000: RegLeaf,
    /// Extended feature bits.
    pub leaf_80000001: RegLeaf,
    /// Brand string, first part.
    pub leaf_80000002: RegLeaf,
    /// Brand string, second part.
    pub leaf_80000003: RegLeaf,
    /// Brand string, third part.
    pub leaf_80000004: RegLeaf,
    /// L1 cache and TLB information.
    pub leaf_80000005: RegLeaf,
    /// L2 cache information.
    pub leaf_80000006: RegLeaf,
    /// Invariant TSC.
    pub leaf_80000007: RegLeaf,
    /// Address sizes.
    pub leaf_80000008: RegLeaf,
}

impl View for IntelCpuid {
    type V = CpuidView;

    open spec fn view(&self) -> CpuidView {
        CpuidView {
            leaf_0: self.leaf_0,
            leaf_1: self.leaf_1,
            leaf_2: self.leaf_2.spec_words(),
            leaf_4: self.leaf_4@,
            leaf_5: self.leaf_5,
            leaf_6: self.leaf_6,
            leaf_7: self.leaf_7,
            leaf_9: self.leaf_9,
            leaf_a: self.leaf_a,
            leaf_b: self.leaf_b@,
            leaf_d: (self.leaf_d.0, self.leaf_d.1, self.leaf_d.2@),
            leaf_f: self.leaf_f,
            leaf_10: self.leaf_10,
            leaf_12: (self.leaf_12.0, self.leaf_12.1, self.leaf_12.2@),
            leaf_14: self.leaf_14,
            leaf_15: self.leaf_15,
            leaf_16: self.leaf_16,
            leaf_80000000: self.leaf_80000000,
            leaf_80000001: self.leaf_80000001,
            leaf_80000002: self.leaf_80000002,
            leaf_80000003: self.leaf_80000003,
            leaf_80000004: self.leaf_80000004,
            leaf_80000005: self.leaf_80000005,
            leaf_80000006: self.leaf_80000006,
            leaf_80000007: self.leaf_80000007,
            leaf_80000008: self.leaf_80000008,
        }
    }
}

} // verus!
