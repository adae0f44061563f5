//! A flat, fixed-size store of cells addressed from zero.

use std::ops::Range;
use vstd::prelude::*;

use crate::fault::Fault;

verus! {

/// An address into a `Memory`.
pub type Address = usize;

/// A store of `T` cells. Its size is fixed when it is made.
#[derive(Clone, Debug, PartialEq)]
pub struct Memory<T> {
    memory: Vec<T>,
}

impl<T> View for Memory<T> {
    type V = Seq<T>;

    /// The cells in address order.
    closed spec fn view(&self) -> Seq<T> {
        self.memory@
    }
}

/// Whether `len` cells fit into `range`. An inverted range holds nothing.
pub open spec fn fits(len: int, range: Range<Address>) -> bool {
    range.start <= range.end && len <= range.end - range.start
}

/// `cells` with `data` written over it from `start` on.
pub open spec fn overlay<T>(cells: Seq<T>, start: int, data: Seq<T>) -> Seq<T> {
    Seq::new(
        cells.len(),
        |a: int|
            if start <= a < start + data.len() {
                data[a - start]
            } else {
                cells[a]
            },
    )
}

impl<T: Copy> Memory<T> {
    /// A store of `size` cells that all hold `default`.
    pub fn new(size: usize, default: T) -> (memory: Memory<T>)
        ensures
            memory@ == Seq::new(size as nat, |a: int| default),
    {
        let mut cells: Vec<T> = Vec::new();
        let mut filled: usize = 0;
        while filled < size
            invariant
                filled <= size,
                cells@ == Seq::new(filled as nat, |a: int| default),
            decreases size - filled,
        {
            cells.push(default);
            filled = filled + 1;
            assert(cells@ =~= Seq::new(filled as nat, |a: int| default));
        }
        Memory { memory: cells }
    }

    /// The number of cells.
    pub fn len(&self) -> (len: usize)
        ensures
            len == self@.len(),
    {
        self.memory.len()
    }

    /// The cell at `addr`.
    pub fn read(&self, addr: Address) -> (cell: T)
        requires
            addr < self@.len(),
        ensures
            cell == self@[addr as int],
    {
        self.memory[addr]
    }

    /// Stores `cell` at `addr` and leaves every other cell as it was.
    pub fn write(&mut self, addr: Address, cell: T)
        requires
            addr < old(self)@.len(),
        ensures
            final(self)@ == old(self)@.update(addr as int, cell),
    {
        self.memory[addr] = cell;
    }

    /// The `len` cells from `addr` on, in address order.
    pub fn read_range(&self, addr: Address, len: usize) -> (cells: Vec<T>)
        requires
            addr + len <= self@.len(),
        ensures
            cells@ == self@.subrange(addr as int, addr + len),
    {
        let size: usize = self.memory.len();
        let mut cells: Vec<T> = Vec::new();
        let mut taken: usize = 0;
        while taken < len
            invariant
                taken <= len,
                addr + len <= size == self@.len(),
                cells@ == self@.subrange(addr as int, addr + taken),
            decreases len - taken,
        {
            cells.push(self.memory[addr + taken]);
            taken = taken + 1;
            assert(cells@ =~= self@.subrange(addr as int, addr + taken));
        }
        cells
    }

    /// Stores `data` in the cells from `addr` on and leaves every other cell
    /// as it was.
    pub fn write_range(&mut self, addr: Address, data: &[T])
        requires
            addr + data@.len() <= old(self)@.len(),
        ensures
            final(self)@ == overlay(old(self)@, addr as int, data@),
    {
        let size: usize = self.memory.len();
        let mut copied: usize = 0;
        while copied < data.len()
            invariant
                copied <= data@.len(),
                addr + data@.len() <= size == self@.len(),
                self@.len() == old(self)@.len(),
                self@ == overlay(old(self)@, addr as int, data@.subrange(0, copied as int)),
            decreases data@.len() - copied,
        {
            self.memory[addr + copied] = data[copied];
            copied = copied + 1;
            assert(self@ =~= overlay(old(self)@, addr as int, data@.subrange(0, copied as int)));
        }
        assert(data@.subrange(0, copied as int) =~= data@);
    }

    /// Copies `data` into the cells from `range.start` on.
    ///
    /// Fails with `OversizedLoad`, and stores nothing, when `data` is longer
    /// than `range`. Data that fits its range has to fit the store too.
    pub fn load(&mut self, data: &[T], range: Range<Address>) -> (loaded: Result<(), Fault>)
        requires
            fits(data@.len() as int, range) ==> range.start + data@.len() <= old(self)@.len(),
        ensures
            fits(data@.len() as int, range) ==> loaded is Ok && final(self)@ == overlay(
                old(self)@,
                range.start as int,
                data@,
            ),
            !fits(data@.len() as int, range) ==> loaded == Err::<(), Fault>(Fault::OversizedLoad)
                && final(self)@ == old(self)@,
    {
        if range.start > range.end || data.len() > range.end - range.start {
            return Err(Fault::OversizedLoad);
        }
        self.write_range(range.start, data);
        Ok(())
    }
}

} // verus!
