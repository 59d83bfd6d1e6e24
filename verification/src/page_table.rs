//! The address space of a task, as the kernel keeps it: which virtual page is
//! mapped to which physical frame. Every mapping lets user mode read, write
//! and execute.

use vstd::prelude::*;
use crate::frame::PAGE_SIZE;

verus! {

/// The mappings that a list of entries stands for; a later entry for a page
/// replaces an earlier one.
pub open spec fn entries_map(s: Seq<(usize, usize)>) -> Map<usize, usize>
    decreases s.len(),
{
    if s.len() == 0 {
        Map::empty()
    } else {
        entries_map(s.drop_last()).insert(s.last().0, s.last().1)
    }
}

/// The frame that a list of entries maps a page to.
pub open spec fn entries_lookup(s: Seq<(usize, usize)>, vpn: usize) -> Option<usize>
    decreases s.len(),
{
    if s.len() == 0 {
        None
    } else if s.last().0 == vpn {
        Some(s.last().1)
    } else {
        entries_lookup(s.drop_last(), vpn)
    }
}

proof fn lemma_entries_lookup(s: Seq<(usize, usize)>, vpn: usize)
    ensures
        entries_lookup(s, vpn) == if entries_map(s).contains_key(vpn) {
            Some(entries_map(s)[vpn])
        } else {
            None
        },
    decreases s.len(),
{
    if s.len() > 0 {
        lemma_entries_lookup(s.drop_last(), vpn);
    }
}

proof fn lemma_entries_bound(s: Seq<(usize, usize)>, vpn: usize)
    requires
        forall|i: int| 0 <= i < s.len() ==> (#[trigger] s[i]).1 <= usize::MAX / PAGE_SIZE,
        entries_map(s).contains_key(vpn),
    ensures
        entries_map(s)[vpn] <= usize::MAX / PAGE_SIZE,
    decreases s.len(),
{
    if s.len() > 0 {
        if s.last().0 != vpn {
            lemma_entries_bound(s.drop_last(), vpn);
        }
    }
}

/// The page that holds a virtual address.
pub open spec fn page_of(addr: usize) -> usize {
    addr / PAGE_SIZE
}

/// The address space of a task.
pub struct PageTable {
    /// The mappings, as pairs of a virtual page and a physical frame.
    pub entries: Vec<(usize, usize)>,
}

impl View for PageTable {
    type V = Map<usize, usize>;

    /// The frame of every mapped page.
    open spec fn view(&self) -> Map<usize, usize> {
        entries_map(self.entries@)
    }
}

impl PageTable {
    /// Every frame that a page is mapped to has an address that fits a word.
    pub open spec fn wf(&self) -> bool {
        forall|i: int|
            0 <= i < self.entries@.len() ==> (#[trigger] self.entries@[i]).1 <= usize::MAX
                / PAGE_SIZE
    }

    /// The physical address that a virtual address is mapped to.
    pub open spec fn spec_translate(mappings: Map<usize, usize>, vaddr: usize) -> Option<usize> {
        if mappings.contains_key(page_of(vaddr)) {
            Some((mappings[page_of(vaddr)] * PAGE_SIZE + vaddr % PAGE_SIZE) as usize)
        } else {
            None
        }
    }

    /// An address space without mappings.
    pub fn new() -> (r: PageTable)
        ensures
            r.wf(),
            r@ == Map::<usize, usize>::empty(),
    {
        PageTable { entries: Vec::new() }
    }

    /// The frame that a page is mapped to.
    pub fn lookup(&self, vpn: usize) -> (r: Option<usize>)
        ensures
            r == if self@.contains_key(vpn) {
                Some(self@[vpn])
            } else {
                None::<usize>
            },
    {
        let mut i: usize = self.entries.len();
        proof {
            lemma_entries_lookup(self.entries@, vpn);
            assert(self.entries@.take(i as int) =~= self.entries@);
        }
        while i > 0
            invariant
                i <= self.entries.len(),
                entries_lookup(self.entries@, vpn) == entries_lookup(
                    self.entries@.take(i as int),
                    vpn,
                ),
                entries_lookup(self.entries@, vpn) == if self@.contains_key(vpn) {
                    Some(self@[vpn])
                } else {
                    None::<usize>
                },
            decreases i,
        {
            let entry = self.entries[i - 1];
            proof {
                assert(self.entries@.take(i as int).drop_last() =~= self.entries@.take(i - 1));
            }
            if entry.0 == vpn {
                return Some(entry.1);
            }
            i = i - 1;
        }
        None
    }

    /// Takes the mapping of a page away, if it has one.
    pub fn unmap_page(&mut self, vpn: usize)
        requires
            old(self).wf(),
        ensures
            final(self).wf(),
            final(self)@ == old(self)@.remove(vpn),
    {
        let mut kept: Vec<(usize, usize)> = Vec::new();
        let mut i: usize = 0;
        while i < self.entries.len()
            invariant
                i <= self.entries.len(),
                *self == *old(self),
                self.wf(),
                forall|j: int| 0 <= j < kept@.len() ==> (#[trigger] kept@[j]).1 <= usize::MAX / PAGE_SIZE,
                entries_map(kept@) == entries_map(self.entries@.take(i as int)).remove(vpn),
            decreases self.entries.len() - i,
        {
            let entry = self.entries[i];
            proof {
                assert(self.entries@.take(i + 1).drop_last() =~= self.entries@.take(i as int));
                let before = entries_map(self.entries@.take(i as int));
                if entry.0 == vpn {
                    assert(before.insert(entry.0, entry.1).remove(vpn) =~= before.remove(vpn));
                } else {
                    assert(kept@.push(entry).drop_last() =~= kept@);
                    assert(before.remove(vpn).insert(entry.0, entry.1) =~= before.insert(
                        entry.0,
                        entry.1,
                    ).remove(vpn));
                }
            }
            if entry.0 != vpn {
                kept.push(entry);
            }
            i = i + 1;
        }
        proof {
            assert(self.entries@.take(i as int) =~= self.entries@);
        }
        self.entries = kept;
    }

    /// Maps a page to a frame; a mapping that the page had before is replaced.
    pub fn map_page(&mut self, vpn: usize, ppn: usize)
        requires
            old(self).wf(),
            ppn <= usize::MAX / PAGE_SIZE,
        ensures
            final(self).wf(),
            final(self)@ == old(self)@.insert(vpn, ppn),
    {
        self.unmap_page(vpn);
        proof {
            assert(self.entries@.push((vpn, ppn)).drop_last() =~= self.entries@);
            assert(old(self)@.remove(vpn).insert(vpn, ppn) =~= old(self)@.insert(vpn, ppn));
        }
        self.entries.push((vpn, ppn));
    }

    /// The physical address that a virtual address is mapped to.
    pub fn translate(&self, vaddr: usize) -> (r: Option<usize>)
        requires
            self.wf(),
        ensures
            r == PageTable::spec_translate(self@, vaddr),
    {
        match self.lookup(vaddr / PAGE_SIZE) {
            Some(ppn) => {
                proof {
                    lemma_entries_bound(self.entries@, page_of(vaddr));
                    assert(ppn * PAGE_SIZE + vaddr % PAGE_SIZE <= usize::MAX) by (nonlinear_arith)
                        requires
                            ppn <= usize::MAX / PAGE_SIZE,
                            vaddr % PAGE_SIZE < PAGE_SIZE,
                            PAGE_SIZE == 4096,
                    ;
                }
                Some(ppn * PAGE_SIZE + vaddr % PAGE_SIZE)
            },
            None => None,
        }
    }
}

} // verus!
