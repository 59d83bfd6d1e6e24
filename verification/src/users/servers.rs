//! The book keeping of the root server: the services that were registered,
//! and the tasks that it has started.

use vstd::prelude::*;
use crate::abi::SysCallError;
use crate::frame::PAGE_SIZE;
use crate::root::{ElfImage, Segment, SegmentType};
use crate::utils::{align_down, align_up, spec_align_down, spec_align_up};

verus! {

/// A service: a name, and the task that serves it.
#[derive(Debug)]
pub struct Service {
    /// The name of the service.
    pub name: String,
    /// The task that serves it.
    pub task_id: usize,
}

/// A task that the root server has started.
pub struct Task {
    /// The id of the task.
    pub tid: usize,
    /// The task that serves its page faults.
    pub pager: usize,
    /// The name of the task.
    pub name: String,
    /// The lowest virtual address that was not handed out yet.
    pub valloc_next: usize,
    /// The service that the task waits for; empty where it waits for none.
    pub waiting_for: String,
    /// Whether the task watches the end of other tasks.
    pub watch_tasks: bool,
}

impl Task {
    /// Hands out `size` bytes of the virtual addresses of the task, and
    /// returns the first of them.
    pub fn alloc_size(&mut self, size: usize) -> (r: usize)
        requires
            size % PAGE_SIZE == 0,
            old(self).valloc_next + size <= usize::MAX,
        ensures
            r == old(self).valloc_next,
            final(self).valloc_next == old(self).valloc_next + size,
            final(self).tid == old(self).tid,
            final(self).pager == old(self).pager,
            final(self).name == old(self).name,
            final(self).waiting_for == old(self).waiting_for,
            final(self).watch_tasks == old(self).watch_tasks,
    {
        self.valloc_next = self.valloc_next + size;
        self.valloc_next - size
    }
}

/// The error of a call, as user space names it.
pub type UserError = SysCallError;

/// A part of the file of a program that is to be copied into a fresh page:
/// where it begins in the file, and how many bytes it has.
#[derive(Debug, Clone, Copy, PartialEq, Eq)]
pub struct FileCopy {
    pub offset: usize,
    pub size: usize,
}

impl Segment {
    /// The address after the last byte of the segment that the file holds.
    pub open spec fn file_end(self) -> int {
        self.virtual_addr + self.file_size
    }

    /// The address after the last page of the segment.
    pub open spec fn page_end(self) -> int {
        spec_align_up(self.virtual_addr + self.mem_size, PAGE_SIZE as int)
    }

    /// Whether the part of the file that belongs to the page of the address
    /// `uaddr` is to be copied: the segment is loaded, and the address lies
    /// in what the file holds of it.
    pub open spec fn covers(self, uaddr: usize) -> bool {
        self.kind == SegmentType::Load && self.virtual_addr <= uaddr <= self.file_end()
    }

    /// The part of the file that belongs to the page of the address `uaddr`.
    pub open spec fn copy_for(self, uaddr: usize) -> FileCopy {
        let page = spec_align_down(uaddr as int, PAGE_SIZE as int);
        FileCopy {
            offset: (self.offset + page - self.virtual_addr) as usize,
            size: if self.file_end() - page < PAGE_SIZE {
                (self.file_end() - page) as usize
            } else {
                PAGE_SIZE
            },
        }
    }

    /// Whether the part of the file for the page of `uaddr` can be named with
    /// numbers that fit a word: the segment ends inside the address space,
    /// and the page does not begin before the segment does.
    pub open spec fn can_copy(self, uaddr: usize) -> bool {
        self.covers(uaddr) ==> {
            &&& self.file_end() <= usize::MAX
            &&& self.virtual_addr <= spec_align_down(uaddr as int, PAGE_SIZE as int)
            &&& self.offset + spec_align_down(uaddr as int, PAGE_SIZE as int) <= usize::MAX
        }
    }
}

/// The parts of the file that the first `n` segments ask to copy for the
/// page of the address `uaddr`.
pub open spec fn copies(segments: Seq<Segment>, uaddr: usize, n: int) -> Seq<FileCopy>
    decreases n,
{
    if n <= 0 {
        Seq::empty()
    } else if segments[n - 1].covers(uaddr) {
        copies(segments, uaddr, n - 1).push(segments[n - 1].copy_for(uaddr))
    } else {
        copies(segments, uaddr, n - 1)
    }
}

/// The lowest address above the first `n` segments that are loaded, rounded
/// up to a page.
pub open spec fn image_end(segments: Seq<Segment>, n: int) -> int
    decreases n,
{
    if n <= 0 {
        0
    } else if segments[n - 1].kind == SegmentType::Load && segments[n - 1].page_end() > image_end(
        segments,
        n - 1,
    ) {
        segments[n - 1].page_end()
    } else {
        image_end(segments, n - 1)
    }
}

impl Task {
    /// What the root server does for a page fault of the task at the address
    /// `uaddr`, once it has a fresh frame for the page: the parts of the file
    /// of the program that are to be copied into the frame, one for every
    /// segment that holds the address. A fault in the first page of the
    /// address space is not served: it fails with `NotAllowed`.
    pub fn handle_page_fault(&self, segments: &Vec<Segment>, uaddr: usize) -> (r: Result<Vec<FileCopy>, UserError>)
        requires
            forall|i: int| 0 <= i < segments@.len() ==> (#[trigger] segments@[i]).can_copy(uaddr),
        ensures
            uaddr < PAGE_SIZE ==> r == Err::<Vec<FileCopy>, UserError>(SysCallError::NotAllowed),
            uaddr >= PAGE_SIZE ==> ({
                r matches Ok(plan) && plan@ == copies(segments@, uaddr, segments@.len() as int)
            }),
    {
        if uaddr < PAGE_SIZE {
            return Err(SysCallError::NotAllowed);
        }
        let vaddr = align_down(uaddr, PAGE_SIZE);
        let mut plan: Vec<FileCopy> = Vec::new();
        let mut i: usize = 0;
        while i < segments.len()
            invariant
                i <= segments@.len(),
                vaddr == spec_align_down(uaddr as int, PAGE_SIZE as int),
                vaddr <= uaddr,
                plan@ == copies(segments@, uaddr, i as int),
                forall|j: int| 0 <= j < segments@.len() ==> (#[trigger] segments@[j]).can_copy(uaddr),
            decreases segments@.len() - i,
        {
            let x = segments[i];
            assert(x.can_copy(uaddr));
            if x.kind == SegmentType::Load && x.file_size <= usize::MAX - x.virtual_addr {
                let start = x.virtual_addr;
                let end = x.virtual_addr + x.file_size;
                if uaddr >= start && uaddr <= end {
                    let offset = x.offset + vaddr - start;
                    let size = if end - vaddr < PAGE_SIZE {
                        end - vaddr
                    } else {
                        PAGE_SIZE
                    };
                    plan.push(FileCopy { offset, size });
                }
            }
            i = i + 1;
        }
        Ok(plan)
    }
}

/// Notes a server that the root server has started: the task `new_tid`,
/// as the creation of the task returned it, with the root server `pager` as
/// its pager. The virtual addresses that the root server hands out to it
/// begin above the segments of its program. Nothing is noted where the
/// creation failed.
pub fn spawn_server(tasks: &mut Vec<Task>, name: &str, image: &ElfImage, new_tid: isize, pager: usize) -> (spawned: bool)
    requires
        forall|i: int|
            0 <= i < image.segments@.len() ==> (#[trigger] image.segments@[i]).virtual_addr
                + image.segments@[i].mem_size + PAGE_SIZE <= usize::MAX,
    ensures
        spawned == (new_tid >= 0),
        !spawned ==> final(tasks)@ == old(tasks)@,
        spawned ==> final(tasks)@.len() == old(tasks)@.len() + 1 && final(tasks)@.drop_last() == old(tasks)@ && {
            let task = final(tasks)@.last();
            &&& task.tid == new_tid
            &&& task.pager == pager
            &&& task.name@ == name@
            &&& task.valloc_next == image_end(image.segments@, image.segments@.len() as int)
            &&& task.waiting_for@ == Seq::<char>::empty()
            &&& !task.watch_tasks
        },
{
    if new_tid < 0 {
        return false;
    }
    let mut valloc_next: usize = 0;
    let mut i: usize = 0;
    while i < image.segments.len()
        invariant
            i <= image.segments@.len(),
            valloc_next == image_end(image.segments@, i as int),
            forall|j: int|
                0 <= j < image.segments@.len() ==> (#[trigger] image.segments@[j]).virtual_addr
                    + image.segments@[j].mem_size + PAGE_SIZE <= usize::MAX,
        decreases image.segments@.len() - i,
    {
        let x = image.segments[i];
        if x.kind == SegmentType::Load {
            let end = align_up(x.virtual_addr + x.mem_size, PAGE_SIZE);
            if end > valloc_next {
                valloc_next = end;
            }
        }
        i = i + 1;
    }
    tasks.push(
        Task {
            tid: new_tid as usize,
            pager,
            name: name.to_owned(),
            valloc_next,
            waiting_for: String::new(),
            watch_tasks: false,
        },
    );
    proof {
        assert(tasks@.drop_last() =~= old(tasks)@);
    }
    true
}

/// Whether a task waits for the service `name`.
pub open spec fn waits_for(task: Task, name: Seq<char>) -> bool {
    task.waiting_for@ == name
}

/// The ids of the first `n` tasks of a list that wait for the service `name`.
pub open spec fn waiting_tasks(tasks: Seq<Task>, name: Seq<char>, n: int) -> Seq<usize>
    decreases n,
{
    if n <= 0 {
        Seq::empty()
    } else if waits_for(tasks[n - 1], name) {
        waiting_tasks(tasks, name, n - 1).push(tasks[n - 1].tid)
    } else {
        waiting_tasks(tasks, name, n - 1)
    }
}

/// Registers the task `tid` as the service `name`, and returns the tasks
/// that waited for a service of this name, in the order of the list: they
/// wait no longer, and each is owed the answer to its lookup.
pub fn register_service(services: &mut Vec<Service>, tasks: &mut Vec<Task>, tid: usize, name: String) -> (woken: Vec<usize>)
    ensures
        final(services)@.len() == old(services)@.len() + 1,
        final(services)@.drop_last() == old(services)@,
        final(services)@.last().name@ == name@,
        final(services)@.last().task_id == tid,
        woken@ == waiting_tasks(old(tasks)@, name@, old(tasks)@.len() as int),
        final(tasks)@.len() == old(tasks)@.len(),
        forall|i: int|
            0 <= i < old(tasks)@.len() ==> {
                let before = #[trigger] old(tasks)@[i];
                let after = final(tasks)@[i];
                &&& after.tid == before.tid
                &&& after.pager == before.pager
                &&& after.name == before.name
                &&& after.valloc_next == before.valloc_next
                &&& after.watch_tasks == before.watch_tasks
                &&& after.waiting_for@ == if waits_for(before, name@) {
                    Seq::<char>::empty()
                } else {
                    before.waiting_for@
                }
            },
{
    let mut woken: Vec<usize> = Vec::new();
    let mut i: usize = 0;
    while i < tasks.len()
        invariant
            i <= tasks@.len(),
            tasks@.len() == old(tasks)@.len(),
            *services == *old(services),
            woken@ == waiting_tasks(old(tasks)@, name@, i as int),
            forall|j: int| i <= j < tasks@.len() ==> tasks@[j] == old(tasks)@[j],
            forall|j: int|
                0 <= j < i ==> {
                    let before = #[trigger] old(tasks)@[j];
                    let after = tasks@[j];
                    &&& after.tid == before.tid
                    &&& after.pager == before.pager
                    &&& after.name == before.name
                    &&& after.valloc_next == before.valloc_next
                    &&& after.watch_tasks == before.watch_tasks
                    &&& after.waiting_for@ == if waits_for(before, name@) {
                        Seq::<char>::empty()
                    } else {
                        before.waiting_for@
                    }
                },
        decreases tasks@.len() - i,
    {
        if tasks[i].waiting_for == name {
            tasks[i].waiting_for = String::new();
            woken.push(tasks[i].tid);
        }
        i = i + 1;
    }
    services.push(Service { name, task_id: tid });
    proof {
        assert(services@.drop_last() =~= old(services)@);
    }
    woken
}

} // verus!
