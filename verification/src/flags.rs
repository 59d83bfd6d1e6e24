//! The flag words of the system call interface.

use vstd::prelude::*;

verus! {

/// How a message is passed.
#[derive(Debug, Clone, Copy, PartialEq, Eq, Structural)]
pub struct IPCFlags {
    /// The flags, one bit each.
    pub bits: usize,
}

impl IPCFlags {
    /// Send a message.
    pub open spec fn has_send(self) -> bool {
        self.bits & 0x10000 != 0
    }

    /// Receive a message.
    pub open spec fn has_recv(self) -> bool {
        self.bits & 0x20000 != 0
    }

    /// Fail rather than wait.
    pub open spec fn has_non_block(self) -> bool {
        self.bits & 0x40000 != 0
    }

    /// The kernel itself sends the message.
    pub open spec fn has_kernel(self) -> bool {
        self.bits & 0x80000 != 0
    }

    /// No bit is set that is no flag.
    pub open spec fn known(self) -> bool {
        self.bits & !0xf0000usize == 0
    }

    /// The union of two sets of flags.
    pub open spec fn spec_union(self, other: IPCFlags) -> IPCFlags {
        IPCFlags { bits: self.bits | other.bits }
    }

    /// The set of flags that a word holds, if the word holds no other bit.
    pub open spec fn spec_from_bits(bits: usize) -> Option<IPCFlags> {
        if bits & !0xf0000usize == 0 {
            Some(IPCFlags { bits })
        } else {
            None
        }
    }

    /// A union has a flag exactly when one of the two sets has it.
    pub proof fn lemma_union(self, other: IPCFlags)
        ensures
            self.spec_union(other).has_send() == (self.has_send() || other.has_send()),
            self.spec_union(other).has_recv() == (self.has_recv() || other.has_recv()),
            self.spec_union(other).has_non_block() == (self.has_non_block() || other.has_non_block()),
            self.spec_union(other).has_kernel() == (self.has_kernel() || other.has_kernel()),
            self.known() && other.known() ==> self.spec_union(other).known(),
    {
        let a = self.bits;
        let b = other.bits;
        assert((((a | b) & 0x10000 != 0) == ((a & 0x10000 != 0) || (b & 0x10000 != 0)))
            && (((a | b) & 0x20000 != 0) == ((a & 0x20000 != 0) || (b & 0x20000 != 0)))
            && (((a | b) & 0x40000 != 0) == ((a & 0x40000 != 0) || (b & 0x40000 != 0)))
            && (((a | b) & 0x80000 != 0) == ((a & 0x80000 != 0) || (b & 0x80000 != 0)))
            && (a & !0xf0000usize == 0 && b & !0xf0000usize == 0 ==> (a | b) & !0xf0000usize == 0)) by (bit_vector);
    }

    /// The empty set of flags.
    pub fn empty() -> (r: IPCFlags)
        ensures
            r.bits == 0,
            r.known(),
            !r.has_send(),
            !r.has_recv(),
            !r.has_non_block(),
            !r.has_kernel(),
    {
        proof {
            assert(0usize & !0xf0000usize == 0
                && 0usize & 0x10000 == 0
                && 0usize & 0x20000 == 0
                && 0usize & 0x40000 == 0
                && 0usize & 0x80000 == 0) by (bit_vector);
        }
        IPCFlags { bits: 0 }
    }

    /// The set that holds one flag. Send a message.
    pub fn send() -> (r: IPCFlags)
        ensures
            r.bits == 0x10000,
            r.known(),
            r.has_send(),
            !r.has_recv(),
            !r.has_non_block(),
            !r.has_kernel(),
    {
        proof {
            assert(0x10000usize & !0xf0000usize == 0
                && 0x10000usize & 0x10000 != 0
                && 0x10000usize & 0x20000 == 0
                && 0x10000usize & 0x40000 == 0
                && 0x10000usize & 0x80000 == 0) by (bit_vector);
        }
        IPCFlags { bits: 0x10000 }
    }

    /// The set that holds one flag. Receive a message.
    pub fn recv() -> (r: IPCFlags)
        ensures
            r.bits == 0x20000,
            r.known(),
            !r.has_send(),
            r.has_recv(),
            !r.has_non_block(),
            !r.has_kernel(),
    {
        proof {
            assert(0x20000usize & !0xf0000usize == 0
                && 0x20000usize & 0x10000 == 0
                && 0x20000usize & 0x20000 != 0
                && 0x20000usize & 0x40000 == 0
                && 0x20000usize & 0x80000 == 0) by (bit_vector);
        }
        IPCFlags { bits: 0x20000 }
    }

    /// The set that holds one flag. Fail rather than wait.
    pub fn non_block() -> (r: IPCFlags)
        ensures
            r.bits == 0x40000,
            r.known(),
            !r.has_send(),
            !r.has_recv(),
            r.has_non_block(),
            !r.has_kernel(),
    {
        proof {
            assert(0x40000usize & !0xf0000usize == 0
                && 0x40000usize & 0x10000 == 0
                && 0x40000usize & 0x20000 == 0
                && 0x40000usize & 0x40000 != 0
                && 0x40000usize & 0x80000 == 0) by (bit_vector);
        }
        IPCFlags { bits: 0x40000 }
    }

    /// The set that holds one flag. The kernel itself sends the message.
    pub fn kernel() -> (r: IPCFlags)
        ensures
            r.bits == 0x80000,
            r.known(),
            !r.has_send(),
            !r.has_recv(),
            !r.has_non_block(),
            r.has_kernel(),
    {
        proof {
            assert(0x80000usize & !0xf0000usize == 0
                && 0x80000usize & 0x10000 == 0
                && 0x80000usize & 0x20000 == 0
                && 0x80000usize & 0x40000 == 0
                && 0x80000usize & 0x80000 != 0) by (bit_vector);
        }
        IPCFlags { bits: 0x80000 }
    }

    /// A send followed by a receive.
    pub fn call() -> (r: IPCFlags)
        ensures
            r.bits == 0x30000,
            r.known(),
            r.has_send(),
            r.has_recv(),
            !r.has_non_block(),
            !r.has_kernel(),
    {
        proof {
            assert(0x30000usize & !0xf0000usize == 0 && 0x30000usize & 0x10000 != 0 && 0x30000usize
                & 0x20000 != 0 && 0x30000usize & 0x40000 == 0 && 0x30000usize & 0x80000 == 0)
                by (bit_vector);
        }
        IPCFlags { bits: 0x30000 }
    }

    /// The flags as a word.
    pub fn bits(&self) -> (r: usize)
        ensures
            r == self.bits,
    {
        self.bits
    }

    /// The set of flags that a word holds; `None` where the word holds a bit that is no flag.
    pub fn from_bits(bits: usize) -> (r: Option<IPCFlags>)
        ensures
            r == IPCFlags::spec_from_bits(bits),
            r matches Some(f) ==> f.known() && f.bits == bits,
    {
        if bits & !0xf0000usize == 0 {
            Some(IPCFlags { bits })
        } else {
            None
        }
    }

    /// Whether every flag of `other` is set here too.
    pub fn contains(&self, other: IPCFlags) -> (r: bool)
        ensures
            r == (self.bits & other.bits == other.bits),
    {
        self.bits & other.bits == other.bits
    }

    /// Whether no flag is set.
    pub fn is_empty(&self) -> (r: bool)
        ensures
            r == (self.bits == 0),
    {
        self.bits == 0
    }

    /// The union of two sets of flags.
    pub fn union(self, other: IPCFlags) -> (r: IPCFlags)
        ensures
            r == self.spec_union(other),
            r.has_send() == (self.has_send() || other.has_send()),
            r.has_recv() == (self.has_recv() || other.has_recv()),
            r.has_non_block() == (self.has_non_block() || other.has_non_block()),
            r.has_kernel() == (self.has_kernel() || other.has_kernel()),
            self.known() && other.known() ==> r.known(),
    {
        proof {
            self.lemma_union(other);
        }
        IPCFlags { bits: self.bits | other.bits }
    }

    /// Whether this flag is set. Send a message.
    pub fn is_send(&self) -> (r: bool)
        ensures
            r == self.has_send(),
    {
        self.bits & 0x10000 != 0
    }

    /// Whether this flag is set. Receive a message.
    pub fn is_recv(&self) -> (r: bool)
        ensures
            r == self.has_recv(),
    {
        self.bits & 0x20000 != 0
    }

    /// Whether this flag is set. Fail rather than wait.
    pub fn is_non_block(&self) -> (r: bool)
        ensures
            r == self.has_non_block(),
    {
        self.bits & 0x40000 != 0
    }

    /// Whether this flag is set. The kernel itself sends the message.
    pub fn is_kernel(&self) -> (r: bool)
        ensures
            r == self.has_kernel(),
    {
        self.bits & 0x80000 != 0
    }
}

impl core::ops::BitOr for IPCFlags {
    type Output = IPCFlags;

    /// The union of two sets of flags.
    fn bitor(self, rhs: IPCFlags) -> (r: IPCFlags) {
        IPCFlags { bits: self.bits | rhs.bits }
    }
}

impl vstd::std_specs::ops::BitOrSpecImpl for IPCFlags {
    open spec fn obeys_bitor_spec() -> bool {
        true
    }

    open spec fn bitor_req(self, rhs: IPCFlags) -> bool {
        true
    }

    open spec fn bitor_spec(self, rhs: IPCFlags) -> IPCFlags {
        self.spec_union(rhs)
    }
}

/// Why a page fault occurred.
#[derive(Debug, Clone, Copy, PartialEq, Eq, Structural)]
pub struct PageFaultReason {
    /// The flags, one bit each.
    pub bits: usize,
}

impl PageFaultReason {
    /// The access was a read.
    pub open spec fn has_read(self) -> bool {
        self.bits & 0x1 != 0
    }

    /// The access was a write.
    pub open spec fn has_write(self) -> bool {
        self.bits & 0x2 != 0
    }

    /// The access fetched an instruction.
    pub open spec fn has_exec(self) -> bool {
        self.bits & 0x4 != 0
    }

    /// The fault occurred in user mode.
    pub open spec fn has_user(self) -> bool {
        self.bits & 0x8 != 0
    }

    /// The page was mapped.
    pub open spec fn has_present(self) -> bool {
        self.bits & 0x10 != 0
    }

    /// No bit is set that is no flag.
    pub open spec fn known(self) -> bool {
        self.bits & !0x1fusize == 0
    }

    /// The union of two sets of flags.
    pub open spec fn spec_union(self, other: PageFaultReason) -> PageFaultReason {
        PageFaultReason { bits: self.bits | other.bits }
    }

    /// The set of flags that a word holds, if the word holds no other bit.
    pub open spec fn spec_from_bits(bits: usize) -> Option<PageFaultReason> {
        if bits & !0x1fusize == 0 {
            Some(PageFaultReason { bits })
        } else {
            None
        }
    }

    /// A union has a flag exactly when one of the two sets has it.
    pub proof fn lemma_union(self, other: PageFaultReason)
        ensures
            self.spec_union(other).has_read() == (self.has_read() || other.has_read()),
            self.spec_union(other).has_write() == (self.has_write() || other.has_write()),
            self.spec_union(other).has_exec() == (self.has_exec() || other.has_exec()),
            self.spec_union(other).has_user() == (self.has_user() || other.has_user()),
            self.spec_union(other).has_present() == (self.has_present() || other.has_present()),
            self.known() && other.known() ==> self.spec_union(other).known(),
    {
        let a = self.bits;
        let b = other.bits;
        assert((((a | b) & 0x1 != 0) == ((a & 0x1 != 0) || (b & 0x1 != 0)))
            && (((a | b) & 0x2 != 0) == ((a & 0x2 != 0) || (b & 0x2 != 0)))
            && (((a | b) & 0x4 != 0) == ((a & 0x4 != 0) || (b & 0x4 != 0)))
            && (((a | b) & 0x8 != 0) == ((a & 0x8 != 0) || (b & 0x8 != 0)))
            && (((a | b) & 0x10 != 0) == ((a & 0x10 != 0) || (b & 0x10 != 0)))
            && (a & !0x1fusize == 0 && b & !0x1fusize == 0 ==> (a | b) & !0x1fusize == 0)) by (bit_vector);
    }

    /// The empty set of flags.
    pub fn empty() -> (r: PageFaultReason)
        ensures
            r.bits == 0,
            r.known(),
            !r.has_read(),
            !r.has_write(),
            !r.has_exec(),
            !r.has_user(),
            !r.has_present(),
    {
        proof {
            assert(0usize & !0x1fusize == 0
                && 0usize & 0x1 == 0
                && 0usize & 0x2 == 0
                && 0usize & 0x4 == 0
                && 0usize & 0x8 == 0
                && 0usize & 0x10 == 0) by (bit_vector);
        }
        PageFaultReason { bits: 0 }
    }

    /// The set that holds one flag. The access was a read.
    pub fn read() -> (r: PageFaultReason)
        ensures
            r.bits == 0x1,
            r.known(),
            r.has_read(),
            !r.has_write(),
            !r.has_exec(),
            !r.has_user(),
            !r.has_present(),
    {
        proof {
            assert(0x1usize & !0x1fusize == 0
                && 0x1usize & 0x1 != 0
                && 0x1usize & 0x2 == 0
                && 0x1usize & 0x4 == 0
                && 0x1usize & 0x8 == 0
                && 0x1usize & 0x10 == 0) by (bit_vector);
        }
        PageFaultReason { bits: 0x1 }
    }

    /// The set that holds one flag. The access was a write.
    pub fn write() -> (r: PageFaultReason)
        ensures
            r.bits == 0x2,
            r.known(),
            !r.has_read(),
            r.has_write(),
            !r.has_exec(),
            !r.has_user(),
            !r.has_present(),
    {
        proof {
            assert(0x2usize & !0x1fusize == 0
                && 0x2usize & 0x1 == 0
                && 0x2usize & 0x2 != 0
                && 0x2usize & 0x4 == 0
                && 0x2usize & 0x8 == 0
                && 0x2usize & 0x10 == 0) by (bit_vector);
        }
        PageFaultReason { bits: 0x2 }
    }

    /// The set that holds one flag. The access fetched an instruction.
    pub fn exec() -> (r: PageFaultReason)
        ensures
            r.bits == 0x4,
            r.known(),
            !r.has_read(),
            !r.has_write(),
            r.has_exec(),
            !r.has_user(),
            !r.has_present(),
    {
        proof {
            assert(0x4usize & !0x1fusize == 0
                && 0x4usize & 0x1 == 0
                && 0x4usize & 0x2 == 0
                && 0x4usize & 0x4 != 0
                && 0x4usize & 0x8 == 0
                && 0x4usize & 0x10 == 0) by (bit_vector);
        }
        PageFaultReason { bits: 0x4 }
    }

    /// The set that holds one flag. The fault occurred in user mode.
    pub fn user() -> (r: PageFaultReason)
        ensures
            r.bits == 0x8,
            r.known(),
            !r.has_read(),
            !r.has_write(),
            !r.has_exec(),
            r.has_user(),
            !r.has_present(),
    {
        proof {
            assert(0x8usize & !0x1fusize == 0
                && 0x8usize & 0x1 == 0
                && 0x8usize & 0x2 == 0
                && 0x8usize & 0x4 == 0
                && 0x8usize & 0x8 != 0
                && 0x8usize & 0x10 == 0) by (bit_vector);
        }
        PageFaultReason { bits: 0x8 }
    }

    /// The set that holds one flag. The page was mapped.
    pub fn present() -> (r: PageFaultReason)
        ensures
            r.bits == 0x10,
            r.known(),
            !r.has_read(),
            !r.has_write(),
            !r.has_exec(),
            !r.has_user(),
            r.has_present(),
    {
        proof {
            assert(0x10usize & !0x1fusize == 0
                && 0x10usize & 0x1 == 0
                && 0x10usize & 0x2 == 0
                && 0x10usize & 0x4 == 0
                && 0x10usize & 0x8 == 0
                && 0x10usize & 0x10 != 0) by (bit_vector);
        }
        PageFaultReason { bits: 0x10 }
    }

    /// The flags as a word.
    pub fn bits(&self) -> (r: usize)
        ensures
            r == self.bits,
    {
        self.bits
    }

    /// The set of flags that a word holds; `None` where the word holds a bit that is no flag.
    pub fn from_bits(bits: usize) -> (r: Option<PageFaultReason>)
        ensures
            r == PageFaultReason::spec_from_bits(bits),
            r matches Some(f) ==> f.known() && f.bits == bits,
    {
        if bits & !0x1fusize == 0 {
            Some(PageFaultReason { bits })
        } else {
            None
        }
    }

    /// Whether every flag of `other` is set here too.
    pub fn contains(&self, other: PageFaultReason) -> (r: bool)
        ensures
            r == (self.bits & other.bits == other.bits),
    {
        self.bits & other.bits == other.bits
    }

    /// Whether no flag is set.
    pub fn is_empty(&self) -> (r: bool)
        ensures
            r == (self.bits == 0),
    {
        self.bits == 0
    }

    /// The union of two sets of flags.
    pub fn union(self, other: PageFaultReason) -> (r: PageFaultReason)
        ensures
            r == self.spec_union(other),
            r.has_read() == (self.has_read() || other.has_read()),
            r.has_write() == (self.has_write() || other.has_write()),
            r.has_exec() == (self.has_exec() || other.has_exec()),
            r.has_user() == (self.has_user() || other.has_user()),
            r.has_present() == (self.has_present() || other.has_present()),
            self.known() && other.known() ==> r.known(),
    {
        proof {
            self.lemma_union(other);
        }
        PageFaultReason { bits: self.bits | other.bits }
    }

    /// Whether this flag is set. The access was a read.
    pub fn is_read(&self) -> (r: bool)
        ensures
            r == self.has_read(),
    {
        self.bits & 0x1 != 0
    }

    /// Whether this flag is set. The access was a write.
    pub fn is_write(&self) -> (r: bool)
        ensures
            r == self.has_write(),
    {
        self.bits & 0x2 != 0
    }

    /// Whether this flag is set. The access fetched an instruction.
    pub fn is_exec(&self) -> (r: bool)
        ensures
            r == self.has_exec(),
    {
        self.bits & 0x4 != 0
    }

    /// Whether this flag is set. The fault occurred in user mode.
    pub fn is_user(&self) -> (r: bool)
        ensures
            r == self.has_user(),
    {
        self.bits & 0x8 != 0
    }

    /// Whether this flag is set. The page was mapped.
    pub fn is_present(&self) -> (r: bool)
        ensures
            r == self.has_present(),
    {
        self.bits & 0x10 != 0
    }
}

impl core::ops::BitOr for PageFaultReason {
    type Output = PageFaultReason;

    /// The union of two sets of flags.
    fn bitor(self, rhs: PageFaultReason) -> (r: PageFaultReason) {
        PageFaultReason { bits: self.bits | rhs.bits }
    }
}

impl vstd::std_specs::ops::BitOrSpecImpl for PageFaultReason {
    open spec fn obeys_bitor_spec() -> bool {
        true
    }

    open spec fn bitor_req(self, rhs: PageFaultReason) -> bool {
        true
    }

    open spec fn bitor_spec(self, rhs: PageFaultReason) -> PageFaultReason {
        self.spec_union(rhs)
    }
}

/// How physical memory is allocated.
#[derive(Debug, Clone, Copy, PartialEq, Eq, Structural)]
pub struct PMAllocFlags {
    /// The flags, one bit each.
    pub bits: usize,
}

impl PMAllocFlags {
    /// The memory is left as it is.
    pub open spec fn has_uninitialized(self) -> bool {
        self.bits & 0x1 != 0
    }

    /// The memory is filled with zeros.
    pub open spec fn has_zerod(self) -> bool {
        self.bits & 0x2 != 0
    }

    /// The memory is aligned to its size.
    pub open spec fn has_aligned(self) -> bool {
        self.bits & 0x4 != 0
    }

    /// No bit is set that is no flag.
    pub open spec fn known(self) -> bool {
        self.bits & !0x7usize == 0
    }

    /// The union of two sets of flags.
    pub open spec fn spec_union(self, other: PMAllocFlags) -> PMAllocFlags {
        PMAllocFlags { bits: self.bits | other.bits }
    }

    /// The set of flags that a word holds, if the word holds no other bit.
    pub open spec fn spec_from_bits(bits: usize) -> Option<PMAllocFlags> {
        if bits & !0x7usize == 0 {
            Some(PMAllocFlags { bits })
        } else {
            None
        }
    }

    /// A union has a flag exactly when one of the two sets has it.
    pub proof fn lemma_union(self, other: PMAllocFlags)
        ensures
            self.spec_union(other).has_uninitialized() == (self.has_uninitialized() || other.has_uninitialized()),
            self.spec_union(other).has_zerod() == (self.has_zerod() || other.has_zerod()),
            self.spec_union(other).has_aligned() == (self.has_aligned() || other.has_aligned()),
            self.known() && other.known() ==> self.spec_union(other).known(),
    {
        let a = self.bits;
        let b = other.bits;
        assert((((a | b) & 0x1 != 0) == ((a & 0x1 != 0) || (b & 0x1 != 0)))
            && (((a | b) & 0x2 != 0) == ((a & 0x2 != 0) || (b & 0x2 != 0)))
            && (((a | b) & 0x4 != 0) == ((a & 0x4 != 0) || (b & 0x4 != 0)))
            && (a & !0x7usize == 0 && b & !0x7usize == 0 ==> (a | b) & !0x7usize == 0)) by (bit_vector);
    }

    /// The empty set of flags.
    pub fn empty() -> (r: PMAllocFlags)
        ensures
            r.bits == 0,
            r.known(),
            !r.has_uninitialized(),
            !r.has_zerod(),
            !r.has_aligned(),
    {
        proof {
            assert(0usize & !0x7usize == 0
                && 0usize & 0x1 == 0
                && 0usize & 0x2 == 0
                && 0usize & 0x4 == 0) by (bit_vector);
        }
        PMAllocFlags { bits: 0 }
    }

    /// The set that holds one flag. The memory is left as it is.
    pub fn uninitialized() -> (r: PMAllocFlags)
        ensures
            r.bits == 0x1,
            r.known(),
            r.has_uninitialized(),
            !r.has_zerod(),
            !r.has_aligned(),
    {
        proof {
            assert(0x1usize & !0x7usize == 0
                && 0x1usize & 0x1 != 0
                && 0x1usize & 0x2 == 0
                && 0x1usize & 0x4 == 0) by (bit_vector);
        }
        PMAllocFlags { bits: 0x1 }
    }

    /// The set that holds one flag. The memory is filled with zeros.
    pub fn zerod() -> (r: PMAllocFlags)
        ensures
            r.bits == 0x2,
            r.known(),
            !r.has_uninitialized(),
            r.has_zerod(),
            !r.has_aligned(),
    {
        proof {
            assert(0x2usize & !0x7usize == 0
                && 0x2usize & 0x1 == 0
                && 0x2usize & 0x2 != 0
                && 0x2usize & 0x4 == 0) by (bit_vector);
        }
        PMAllocFlags { bits: 0x2 }
    }

    /// The set that holds one flag. The memory is aligned to its size.
    pub fn aligned() -> (r: PMAllocFlags)
        ensures
            r.bits == 0x4,
            r.known(),
            !r.has_uninitialized(),
            !r.has_zerod(),
            r.has_aligned(),
    {
        proof {
            assert(0x4usize & !0x7usize == 0
                && 0x4usize & 0x1 == 0
                && 0x4usize & 0x2 == 0
                && 0x4usize & 0x4 != 0) by (bit_vector);
        }
        PMAllocFlags { bits: 0x4 }
    }

    /// The flags as a word.
    pub fn bits(&self) -> (r: usize)
        ensures
            r == self.bits,
    {
        self.bits
    }

    /// The set of flags that a word holds; `None` where the word holds a bit that is no flag.
    pub fn from_bits(bits: usize) -> (r: Option<PMAllocFlags>)
        ensures
            r == PMAllocFlags::spec_from_bits(bits),
            r matches Some(f) ==> f.known() && f.bits == bits,
    {
        if bits & !0x7usize == 0 {
            Some(PMAllocFlags { bits })
        } else {
            None
        }
    }

    /// Whether every flag of `other` is set here too.
    pub fn contains(&self, other: PMAllocFlags) -> (r: bool)
        ensures
            r == (self.bits & other.bits == other.bits),
    {
        self.bits & other.bits == other.bits
    }

    /// Whether no flag is set.
    pub fn is_empty(&self) -> (r: bool)
        ensures
            r == (self.bits == 0),
    {
        self.bits == 0
    }

    /// The union of two sets of flags.
    pub fn union(self, other: PMAllocFlags) -> (r: PMAllocFlags)
        ensures
            r == self.spec_union(other),
            r.has_uninitialized() == (self.has_uninitialized() || other.has_uninitialized()),
            r.has_zerod() == (self.has_zerod() || other.has_zerod()),
            r.has_aligned() == (self.has_aligned() || other.has_aligned()),
            self.known() && other.known() ==> r.known(),
    {
        proof {
            self.lemma_union(other);
        }
        PMAllocFlags { bits: self.bits | other.bits }
    }

    /// Whether this flag is set. The memory is left as it is.
    pub fn is_uninitialized(&self) -> (r: bool)
        ensures
            r == self.has_uninitialized(),
    {
        self.bits & 0x1 != 0
    }

    /// Whether this flag is set. The memory is filled with zeros.
    pub fn is_zerod(&self) -> (r: bool)
        ensures
            r == self.has_zerod(),
    {
        self.bits & 0x2 != 0
    }

    /// Whether this flag is set. The memory is aligned to its size.
    pub fn is_aligned(&self) -> (r: bool)
        ensures
            r == self.has_aligned(),
    {
        self.bits & 0x4 != 0
    }
}

impl core::ops::BitOr for PMAllocFlags {
    type Output = PMAllocFlags;

    /// The union of two sets of flags.
    fn bitor(self, rhs: PMAllocFlags) -> (r: PMAllocFlags) {
        PMAllocFlags { bits: self.bits | rhs.bits }
    }
}

impl vstd::std_specs::ops::BitOrSpecImpl for PMAllocFlags {
    open spec fn obeys_bitor_spec() -> bool {
        true
    }

    open spec fn bitor_req(self, rhs: PMAllocFlags) -> bool {
        true
    }

    open spec fn bitor_spec(self, rhs: PMAllocFlags) -> PMAllocFlags {
        self.spec_union(rhs)
    }
}

} // verus!
