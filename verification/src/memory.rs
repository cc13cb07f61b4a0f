//! Paged address space: a flat array of cells that grows one page at a time.
use vstd::prelude::*;

verus! {

/// Number of cells in one page of memory.
pub const PAGE_SIZE: usize = 32768;

/// The cell that `cells` holds at address `a`: zero beyond its end.
pub open spec fn cell_at(cells: Seq<u32>, a: u32) -> u32 {
    if a < cells.len() {
        cells[a as int]
    } else {
        0
    }
}

/// A page of exactly `PAGE_SIZE` cells.
pub struct MemoryBlock {
    memory: Vec<u32>,
}

impl MemoryBlock {
    /// The page holds exactly `PAGE_SIZE` cells.
    pub closed spec fn wf(&self) -> bool {
        self.memory.len() == PAGE_SIZE
    }

    /// A well-formed page has `PAGE_SIZE` cells in its view.
    pub proof fn lemma_len(&self)
        requires
            self.wf(),
        ensures
            self@.len() == PAGE_SIZE,
    {
    }

    /// The cells of the page, in order.
    pub closed spec fn view(&self) -> Seq<u32> {
        self.memory@
    }

    /// A fresh page, every cell zero.
    pub fn new() -> (r: MemoryBlock)
        ensures
            r.wf(),
            r@ == Seq::new(PAGE_SIZE as nat, |i: int| 0u32),
    {
        let mut memory: Vec<u32> = Vec::new();
        let mut i: usize = 0;
        while i < PAGE_SIZE
            invariant
                i <= PAGE_SIZE,
                memory@ == Seq::new(i as nat, |j: int| 0u32),
            decreases PAGE_SIZE - i,
        {
            memory.push(0);
            i = i + 1;
            assert(memory@ =~= Seq::new(i as nat, |j: int| 0u32));
        }
        MemoryBlock { memory }
    }

    /// The cell at `offset` within the page.
    pub fn get(&self, offset: usize) -> (r: u32)
        requires
            self.wf(),
            offset < PAGE_SIZE,
        ensures
            r == self@[offset as int],
    {
        self.memory[offset]
    }

    /// Stores `value` at `offset` within the page.
    pub fn set(&mut self, offset: usize, value: u32)
        requires
            old(self).wf(),
            offset < PAGE_SIZE,
        ensures
            final(self).wf(),
            final(self)@ == old(self)@.update(offset as int, value),
    {
        self.memory.set(offset, value);
    }

    /// The cells of the page as a slice, for inspection.
    pub fn cells(&self) -> (r: &[u32])
        ensures
            r@ == self@,
    {
        self.memory.as_slice()
    }
}

/// The error of a store to an address that no page holds.
#[derive(Clone, Copy, Debug, PartialEq, Eq, Structural)]
pub struct OutOfRange;

/// A flat array of cells, held as a list of pages.
pub struct Memory {
    pages: Vec<MemoryBlock>,
}

impl Memory {
    /// Every page of the list is well formed.
    pub closed spec fn wf(&self) -> bool {
        forall|i: int| 0 <= i < self.pages.len() ==> (#[trigger] self.pages[i]).wf()
    }

    /// The number of pages.
    pub closed spec fn page_count(&self) -> nat {
        self.pages.len() as nat
    }

    /// The cells of page `n`.
    pub closed spec fn page_cells(&self, n: int) -> Seq<u32> {
        self.pages[n]@
    }

    /// All cells in address order: page after page.
    pub closed spec fn view(&self) -> Seq<u32> {
        Seq::new(
            (self.pages.len() * PAGE_SIZE) as nat,
            |a: int| self.pages[a / (PAGE_SIZE as int)]@[a % (PAGE_SIZE as int)],
        )
    }

    /// The flat view is the pages laid end to end.
    pub proof fn lemma_view(&self)
        requires
            self.wf(),
        ensures
            self@.len() == self.page_count() * PAGE_SIZE,
            forall|a: int|
                0 <= a < self@.len() ==> #[trigger] self@[a] == self.page_cells(
                    a / (PAGE_SIZE as int),
                )[a % (PAGE_SIZE as int)],
            forall|n: int|
                0 <= n < self.page_count() ==> (#[trigger] self.page_cells(n)).len() == PAGE_SIZE,
    {
        assert forall|n: int| 0 <= n < self.page_count() implies (#[trigger] self.page_cells(
            n,
        )).len() == PAGE_SIZE by {
            assert(self.pages[n].wf());
        }
    }

    /// An address space without pages.
    pub fn new() -> (r: Memory)
        ensures
            r.wf(),
            r.page_count() == 0,
            r@ == Seq::<u32>::empty(),
    {
        let r = Memory { pages: Vec::new() };
        assert(r@ =~= Seq::<u32>::empty());
        r
    }

    /// The number of pages.
    pub fn pages(&self) -> (r: usize)
        ensures
            r == self.page_count(),
    {
        self.pages.len()
    }

    /// The cell at address `a`, or zero where no page holds `a`.
    pub fn read(&self, a: u32) -> (r: u32)
        requires
            self.wf(),
        ensures
            r == cell_at(self@, a),
    {
        let page: usize = a as usize / PAGE_SIZE;
        let offset: usize = a as usize % PAGE_SIZE;
        if page < self.pages.len() {
            proof {
                lemma_locate(a as int, self.pages.len() as int);
                assert(self.pages[page as int].wf());
            }
            self.pages[page].get(offset)
        } else {
            proof {
                lemma_locate(a as int, self.pages.len() as int);
            }
            0
        }
    }

    /// Stores `v` at address `a`, or fails and changes nothing where no page
    /// holds `a`.
    pub fn write(&mut self, a: u32, v: u32) -> (r: Result<(), OutOfRange>)
        requires
            old(self).wf(),
        ensures
            final(self).wf(),
            final(self).page_count() == old(self).page_count(),
            r is Ok <==> a < old(self)@.len(),
            r is Ok ==> final(self)@ == old(self)@.update(a as int, v),
            r is Err ==> final(self)@ == old(self)@,
            final(self)@ == applied(old(self)@, MemoryOp::Write(a, v)),
    {
        let page: usize = a as usize / PAGE_SIZE;
        let offset: usize = a as usize % PAGE_SIZE;
        proof {
            lemma_locate(a as int, self.pages.len() as int);
        }
        if page < self.pages.len() {
            assert(self.pages[page as int].wf());
            self.pages[page].set(offset, v);
            proof {
                let before = *old(self);
                let after = *self;
                assert(after.pages@.len() == before.pages@.len());
                assert forall|i: int| 0 <= i < after.pages.len() implies (
                #[trigger] after.pages[i]).wf() by {
                    if i != page {
                        assert(before.pages[i].wf());
                    }
                }
                assert forall|b: int| 0 <= b < after@.len() implies after@[b] == before@.update(
                    a as int,
                    v,
                )[b] by {
                    lemma_locate(b, before.pages.len() as int);
                    if b / (PAGE_SIZE as int) == page as int {
                        assert(before.pages[page as int].wf());
                    }
                }
                assert(after@ =~= before@.update(a as int, v));
            }
            Ok(())
        } else {
            Err(OutOfRange)
        }
    }

    /// Appends a fresh page of zero cells.
    pub fn append_page(&mut self)
        requires
            old(self).wf(),
        ensures
            final(self).wf(),
            final(self).page_count() == old(self).page_count() + 1,
            final(self)@ == old(self)@ + Seq::new(PAGE_SIZE as nat, |i: int| 0u32),
            final(self)@ == applied(old(self)@, MemoryOp::AppendPage),
    {
        let block = MemoryBlock::new();
        self.pages.push(block);
        proof {
            let before = *old(self);
            let after = *self;
            let n = before.pages.len() as int;
            assert forall|i: int| 0 <= i < after.pages.len() implies (#[trigger] after.pages[i]).wf() by {
                if i < n {
                    assert(before.pages[i].wf());
                }
            }
            let grown = before@ + Seq::new(PAGE_SIZE as nat, |i: int| 0u32);
            assert((n + 1) * PAGE_SIZE == n * PAGE_SIZE + PAGE_SIZE) by (nonlinear_arith);
            assert forall|b: int| 0 <= b < after@.len() implies after@[b] == grown[b] by {
                lemma_locate(b, n + 1);
                if b < n * PAGE_SIZE {
                    lemma_locate(b, n);
                } else {
                    assert(b / (PAGE_SIZE as int) == n);
                    assert(b % (PAGE_SIZE as int) == b - n * PAGE_SIZE);
                }
            }
            assert(after@ =~= grown);
        }
    }

    /// The page and the offset within it at which address `a` lies, or `None`
    /// where no page holds it.
    pub fn locate(&self, a: u32) -> (r: Option<(usize, usize)>)
        requires
            self.wf(),
        ensures
            r is Some <==> a < self@.len(),
            r is Some ==> r->Some_0.0 == a / (PAGE_SIZE as u32) && r->Some_0.1 == a % (
            PAGE_SIZE as u32) && r->Some_0.0 < self.page_count(),
    {
        let offset: usize = a as usize % PAGE_SIZE;
        let region_num: usize = a as usize / PAGE_SIZE;
        proof {
            lemma_locate(a as int, self.pages.len() as int);
        }
        if region_num < self.pages.len() {
            Some((region_num, offset))
        } else {
            None
        }
    }

    /// Page `n`, where there is one.
    pub fn page(&self, n: usize) -> (r: Option<&MemoryBlock>)
        requires
            self.wf(),
        ensures
            r is Some <==> n < self.page_count(),
            r is Some ==> r->Some_0.wf() && r->Some_0@ == self.page_cells(n as int),
    {
        if n < self.pages.len() {
            assert(self.pages[n as int].wf());
            Some(&self.pages[n])
        } else {
            None
        }
    }
}

/// Where address `a` lies among `pages` pages: its page index is below
/// `pages` exactly when `a` is below the end of the last page.
pub proof fn lemma_locate(a: int, pages: int)
    requires
        0 <= a,
        0 <= pages,
    ensures
        0 <= a / (PAGE_SIZE as int),
        0 <= a % (PAGE_SIZE as int) < PAGE_SIZE,
        a == (a / (PAGE_SIZE as int)) * PAGE_SIZE + a % (PAGE_SIZE as int),
        a / (PAGE_SIZE as int) < pages <==> a < pages * PAGE_SIZE,
{
    let q = a / 32768;
    let r = a % 32768;
    assert(a == q * 32768 + r);
    if q < pages {
        assert(q + 1 <= pages);
        assert((q + 1) * 32768 <= pages * 32768) by (nonlinear_arith)
            requires
                q + 1 <= pages,
        ;
    } else {
        assert(pages * 32768 <= q * 32768) by (nonlinear_arith)
            requires
                pages <= q,
        ;
    }
}

/// A change to an address space.
pub enum MemoryOp {
    /// A store of a value at an address.
    Write(u32, u32),
    /// The growth by one page.
    AppendPage,
}

/// The cells after `op`: a store changes the one cell it targets, and nothing
/// where no page holds the address; growth adds a page of zero cells.
pub open spec fn applied(cells: Seq<u32>, op: MemoryOp) -> Seq<u32> {
    match op {
        MemoryOp::Write(a, v) => if a < cells.len() {
            cells.update(a as int, v)
        } else {
            cells
        },
        MemoryOp::AppendPage => cells + Seq::new(PAGE_SIZE as nat, |i: int| 0u32),
    }
}

/// The cells after every change of `ops`, in order.
pub open spec fn applied_all(cells: Seq<u32>, ops: Seq<MemoryOp>) -> Seq<u32>
    decreases ops.len(),
{
    if ops.len() == 0 {
        cells
    } else {
        applied(applied_all(cells, ops.drop_last()), ops.last())
    }
}

/// An address that no store has targeted reads zero, whatever else was
/// stored and however the memory has grown since it was empty.
pub proof fn lemma_untouched_reads_zero(ops: Seq<MemoryOp>, a: u32)
    requires
        forall|i: int, v: u32| 0 <= i < ops.len() ==> ops[i] != MemoryOp::Write(a, v),
    ensures
        cell_at(applied_all(Seq::empty(), ops), a) == 0,
    decreases ops.len(),
{
    if ops.len() > 0 {
        let before = ops.drop_last();
        assert forall|i: int, v: u32| 0 <= i < before.len() implies before[i] != MemoryOp::Write(
            a,
            v,
        ) by {
            assert(before[i] == ops[i]);
        }
        lemma_untouched_reads_zero(before, a);
        let cells = applied_all(Seq::empty(), before);
        match ops.last() {
            MemoryOp::Write(b, v) => {
                assert(ops[ops.len() - 1] != MemoryOp::Write(a, v));
            },
            MemoryOp::AppendPage => {},
        }
    }
}

/// A store changes no cell but the one it targets.
pub proof fn lemma_write_is_local(cells: Seq<u32>, a: u32, v: u32, b: u32)
    requires
        a != b,
    ensures
        cell_at(applied(cells, MemoryOp::Write(a, v)), b) == cell_at(cells, b),
{
}

} // verus!
