//! The memory layout of a task record: header, scheduler and status slot,
//! one after the other, each at the next offset that its alignment allows.

use vstd::prelude::*;
use super::raw::RawTask;

verus! {

/// The least multiple of `align` that is not below `size`.
pub open spec fn round_up(size: int, align: int) -> int
    recommends
        size >= 0,
        align > 0,
{
    if size % align == 0 {
        size
    } else {
        size + align - size % align
    }
}

/// Whether `n` is a power of two.
pub open spec fn is_power_of_two(n: usize) -> bool {
    n > 0 && n & sub_one(n) == 0
}

/// `n - 1` for a positive `n`.
pub open spec fn sub_one(n: usize) -> usize {
    (n - 1) as usize
}

/// The size and alignment of a block of memory.
#[derive(Debug, Clone, Copy, PartialEq, Eq, Structural)]
pub struct Layout {
    /// The size of the block, in bytes.
    pub size: usize,
    /// The alignment of the block, in bytes: a power of two.
    pub align: usize,
}

impl Layout {
    /// The alignment is a power of two, and the size, rounded up to the
    /// alignment, does not exceed `isize::MAX`.
    pub open spec fn wf(self) -> bool {
        &&& is_power_of_two(self.align)
        &&& self.size + self.align - 1 <= isize::MAX
    }

    /// The layout of `size` bytes aligned to `align`, if that is a layout.
    pub fn from_size_align(size: usize, align: usize) -> (layout: Option<Layout>)
        ensures
            layout is Some == (Layout { size, align }).wf(),
            layout is Some ==> layout->0 == (Layout { size, align }),
    {
        if align == 0 {
            return None;
        }
        if align & (align - 1) != 0 {
            return None;
        }
        if align - 1 > isize::MAX as usize {
            return None;
        }
        if size > isize::MAX as usize - (align - 1) {
            return None;
        }
        Some(Layout { size, align })
    }

    /// How many bytes have to follow `self` so that what comes next starts at
    /// a multiple of `align`.
    pub fn padding_needed_for(&self, align: usize) -> (padding: usize)
        requires
            self.wf(),
            align > 0,
            align - 1 <= isize::MAX,
        ensures
            padding < align,
            self.size + padding == round_up(self.size as int, align as int),
            (self.size + padding) % (align as int) == 0,
    {
        let rest = self.size % align;
        if rest == 0 {
            0
        } else {
            proof {
                lemma_round_up(self.size as int, align as int);
            }
            align - rest
        }
    }

    /// The layout of `self` followed by `next`, with the padding in between
    /// that the alignment of `next` asks for, and the offset at which `next`
    /// starts. Nothing follows `next`. `None` where the whole would exceed
    /// what a layout can hold.
    pub fn extend(&self, next: Layout) -> (r: Option<(Layout, usize)>)
        requires
            self.wf(),
            next.wf(),
        ensures
            r is Some == extended(*self, next).wf(),
            r matches Some(pair) ==> pair.0 == extended(*self, next) && pair.1 == round_up(
                self.size as int,
                next.align as int,
            ),
    {
        let align = if self.align >= next.align {
            self.align
        } else {
            next.align
        };
        let padding = self.padding_needed_for(next.align);
        let offset = self.size + padding;
        let limit = isize::MAX as usize - (align - 1);
        if offset > limit {
            return None;
        }
        if next.size > limit - offset {
            return None;
        }
        Some((Layout { size: offset + next.size, align }, offset))
    }
}

/// The layout of `first` followed by `next`.
pub open spec fn extended(first: Layout, next: Layout) -> Layout {
    Layout {
        size: (round_up(first.size as int, next.align as int) + next.size) as usize,
        align: if first.align >= next.align {
            first.align
        } else {
            next.align
        },
    }
}

/// The memory layout of a task.
#[derive(Debug, Clone, Copy, PartialEq, Eq, Structural)]
pub struct TaskLayout {
    /// The layout of the whole record. The header starts it.
    pub layout: Layout,
    /// Where the scheduler starts.
    pub offset_schedule: usize,
    /// Where the status slot starts.
    pub offset_status: usize,
}

impl<F, T> RawTask<F, T> {
    /// Lays out a task record from the layouts of its three parts: the header
    /// first, then the scheduler, then the status slot. `None` where the
    /// record would exceed what a layout can hold.
    pub fn layout(header: Layout, scheduler: Layout, status: Layout) -> (r: Option<TaskLayout>)
        requires
            header.wf(),
            scheduler.wf(),
            status.wf(),
        ensures
            r is Some == (extended(header, scheduler).wf() && extended(
                extended(header, scheduler),
                status,
            ).wf()),
            r is Some ==> {
                &&& r->0.layout == extended(extended(header, scheduler), status)
                &&& r->0.offset_schedule == round_up(header.size as int, scheduler.align as int)
                &&& r->0.offset_status == round_up(
                    r->0.offset_schedule + scheduler.size,
                    status.align as int,
                )
            },
    {
        let (layout, offset_schedule) = match header.extend(scheduler) {
            Some(extended) => extended,
            None => {
                return None;
            },
        };
        let (layout, offset_status) = match layout.extend(status) {
            Some(extended) => extended,
            None => {
                return None;
            },
        };
        Some(TaskLayout { layout, offset_schedule, offset_status })
    }
}

/// Rounding up gives a multiple of the alignment, at least the size, less
/// than one alignment above it.
pub proof fn lemma_round_up(size: int, align: int)
    requires
        size >= 0,
        align > 0,
    ensures
        round_up(size, align) % align == 0,
        size <= round_up(size, align) < size + align,
{
    let rest = size % align;
    if rest != 0 {
        let q = size / align;
        assert(size == q * align + rest) by (nonlinear_arith)
            requires
                q == size / align,
                rest == size % align,
                align > 0,
        ;
        assert((q + 1) * align == q * align + align) by (nonlinear_arith);
        assert(((q + 1) * align) % align == 0) by (nonlinear_arith)
            requires
                align > 0,
        ;
    }
}

/// In a task layout the three parts lie one after the other without
/// overlap, each at a multiple of its own alignment, and within the record.
pub proof fn lemma_task_layout_regions(header: Layout, scheduler: Layout, status: Layout)
    requires
        header.wf(),
        scheduler.wf(),
        status.wf(),
        extended(header, scheduler).wf(),
        extended(extended(header, scheduler), status).wf(),
    ensures
        ({
            let offset_schedule = round_up(header.size as int, scheduler.align as int);
            let offset_status = round_up(offset_schedule + scheduler.size, status.align as int);
            &&& header.size <= offset_schedule
            &&& offset_schedule % (scheduler.align as int) == 0
            &&& offset_schedule + scheduler.size <= offset_status
            &&& offset_status % (status.align as int) == 0
            &&& offset_status + status.size == extended(
                extended(header, scheduler),
                status,
            ).size
        }),
{
    lemma_round_up(header.size as int, scheduler.align as int);
    let offset_schedule = round_up(header.size as int, scheduler.align as int);
    lemma_round_up(offset_schedule + scheduler.size, status.align as int);
}

} // verus!
