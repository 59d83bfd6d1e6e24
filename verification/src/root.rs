//! The root server: the first task, whose program lies in the image of the
//! kernel. Its segments are mapped where the program wants them, onto the
//! memory that holds them, before the task starts.

use vstd::prelude::*;
use crate::abi::SysCallError;
use crate::frame::PAGE_SIZE;
use crate::kernel::Kernel;
use crate::page_table::PageTable;
use crate::task::MicroKernelTask;

verus! {

/// The kind of a segment of a program.
#[derive(Debug, Clone, Copy, PartialEq, Eq, Structural)]
pub enum SegmentType {
    /// The segment is not used.
    Null,
    /// The segment is loaded into memory.
    Load,
    /// Any other kind.
    Other,
}

/// A segment of a program.
#[derive(Debug, Clone, Copy)]
pub struct Segment {
    /// The kind of the segment.
    pub kind: SegmentType,
    /// The virtual address at which the segment begins.
    pub virtual_addr: usize,
    /// The size of the segment in memory.
    pub mem_size: usize,
    /// The size of the segment in the file.
    pub file_size: usize,
    /// The place of the segment in the file.
    pub offset: usize,
}

/// A program: where it starts, and its segments.
pub struct ElfImage {
    /// The address of the first instruction.
    pub entry_point: usize,
    /// The segments of the program.
    pub segments: Vec<Segment>,
}

impl Segment {
    /// The number of pages of the segment.
    pub open spec fn pages(self) -> int {
        (self.mem_size + PAGE_SIZE - 1) / (PAGE_SIZE as int)
    }

    /// The first page of the segment.
    pub open spec fn first_page(self) -> int {
        self.virtual_addr as int / PAGE_SIZE as int
    }

    /// The first frame of the segment, in a file that lies at the physical
    /// address `paddr`.
    pub open spec fn first_frame(self, paddr: usize) -> int {
        (paddr + self.offset) / (PAGE_SIZE as int)
    }

    /// Whether the pages and the frames of the segment have numbers that fit
    /// a word, where it is one that is loaded.
    pub open spec fn fits(self, paddr: usize) -> bool {
        self.kind == SegmentType::Load ==> {
            &&& self.mem_size + PAGE_SIZE <= usize::MAX
            &&& paddr + self.offset <= usize::MAX
            &&& self.first_page() + self.pages() <= usize::MAX
            &&& self.first_frame(paddr) + self.pages() <= usize::MAX / PAGE_SIZE + 1
        }
    }

    /// The mappings `m` together with the first `n` pages of the segment,
    /// each mapped to the frame that holds it.
    pub open spec fn map(self, m: Map<usize, usize>, paddr: usize, n: int) -> Map<usize, usize>
        decreases n,
    {
        if n <= 0 {
            m
        } else {
            self.map(m, paddr, n - 1).insert(
                (self.first_page() + n - 1) as usize,
                (self.first_frame(paddr) + n - 1) as usize,
            )
        }
    }
}

/// The mappings of the first `n` segments of a program that are loaded.
pub open spec fn image_map(segments: Seq<Segment>, paddr: usize, n: int) -> Map<usize, usize>
    decreases n,
{
    if n <= 0 {
        Map::empty()
    } else if segments[n - 1].kind == SegmentType::Load {
        segments[n - 1].map(image_map(segments, paddr, n - 1), paddr, segments[n - 1].pages())
    } else {
        image_map(segments, paddr, n - 1)
    }
}

/// Creates the root server from its program, which lies in memory at the
/// physical address `paddr`: every segment that is loaded is mapped page by
/// page onto the memory that holds it, the task gets a stack, starts at the
/// entry point of the program and has no pager. The call fails as the
/// creation of any task does.
pub fn add_root_server(kernel: &mut Kernel, image: &ElfImage, paddr: usize) -> (r: Result<usize, SysCallError>)
    requires
        old(kernel).wf(),
        forall|i: int| 0 <= i < image.segments@.len() ==> (#[trigger] image.segments@[i]).fits(paddr),
    ensures
        final(kernel).wf(),
        match r {
            Ok(tid) => tid == old(kernel)@.tasks.len() + 1 && old(kernel)@.created(
                final(kernel)@,
                "VM"@,
                image.entry_point,
                None,
                image_map(image.segments@, paddr, image.segments@.len() as int),
            ),
            Err(e) => final(kernel)@ == old(kernel)@ && e == if old(kernel)@.tasks.len() >= old(kernel)@.max_tasks {
                SysCallError::TooManyTasks
            } else {
                SysCallError::NoMemory
            },
        },
        r is Ok <==> old(kernel)@.can_create(),
{
    let mut table = PageTable::new();
    let mut s: usize = 0;
    while s < image.segments.len()
        invariant
            s <= image.segments@.len(),
            table.wf(),
            table@ == image_map(image.segments@, paddr, s as int),
            forall|i: int| 0 <= i < image.segments@.len() ==> (#[trigger] image.segments@[i]).fits(paddr),
        decreases image.segments@.len() - s,
    {
        let segment = image.segments[s];
        if segment.kind == SegmentType::Load {
            assert(segment.fits(paddr));
            let vpn: usize = segment.virtual_addr / PAGE_SIZE;
            let ppn: usize = (paddr + segment.offset) / PAGE_SIZE;
            let pages: usize = (segment.mem_size + PAGE_SIZE - 1) / PAGE_SIZE;
            let ghost before = table@;
            let mut i: usize = 0;
            while i < pages
                invariant
                    i <= pages,
                    vpn == segment.first_page(),
                    ppn == segment.first_frame(paddr),
                    pages == segment.pages(),
                    vpn + pages <= usize::MAX,
                    ppn + pages <= usize::MAX / PAGE_SIZE + 1,
                    table.wf(),
                    table@ == segment.map(before, paddr, i as int),
                decreases pages - i,
            {
                table.map_page(vpn + i, ppn + i);
                i = i + 1;
            }
        }
        s = s + 1;
    }
    MicroKernelTask::create(kernel, "VM".to_owned(), image.entry_point, None, table)
}

} // verus!
