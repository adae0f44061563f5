//! A cursor that is held inside one region of the address space.

use std::ops::Range;
use vstd::prelude::*;

use crate::fault::Fault;
use crate::memory::Address;

verus! {

/// The width of one instruction, and of one stack slot.
pub const STEP_SIZE: usize = 2;

/// An address together with the half-open region it may move in.
///
/// No operation wraps or clamps: one that would leave the region fails with
/// `OutOfRange` and leaves the cursor where it was.
#[derive(Debug, PartialEq)]
pub struct Pointer {
    /// Where the cursor stands.
    pub current: Address,
    /// The region that owns the cursor.
    pub range: Range<Address>,
    /// How far `move_forward` and `move_backward` go.
    pub step_size: usize,
}

impl Pointer {
    /// Whether `addr` lies in the owning region.
    pub open spec fn holds(&self, addr: int) -> bool {
        self.range.start <= addr < self.range.end
    }

    /// The cursor is inside its region and steps by one instruction width.
    pub open spec fn wf(&self) -> bool {
        self.holds(self.current as int) && self.step_size == STEP_SIZE
    }

    /// A cursor over `range`, placed at its first address.
    pub fn new(range: Range<Address>) -> (pointer: Pointer)
        ensures
            pointer.current == range.start,
            pointer.range == range,
            pointer.step_size == STEP_SIZE,
    {
        Pointer { current: range.start, range, step_size: STEP_SIZE }
    }

    /// Whether `addr` lies in the owning region.
    pub fn contains(&self, addr: Address) -> (inside: bool)
        ensures
            inside == self.holds(addr as int),
    {
        self.range.start <= addr && addr < self.range.end
    }

    /// The address one step ahead, if the region holds it.
    pub fn next(&self) -> (next: Result<Address, Fault>)
        ensures
            self.holds(self.current + self.step_size) ==> next == Ok::<Address, Fault>(
                (self.current + self.step_size) as usize,
            ),
            !self.holds(self.current + self.step_size) ==> next == Err::<Address, Fault>(
                Fault::OutOfRange,
            ),
    {
        match self.current.checked_add(self.step_size) {
            Some(next) => if self.contains(next) {
                Ok(next)
            } else {
                Err(Fault::OutOfRange)
            },
            None => Err(Fault::OutOfRange),
        }
    }

    /// The address one step back, if the region holds it.
    pub fn prev(&self) -> (prev: Result<Address, Fault>)
        ensures
            self.holds(self.current - self.step_size) ==> prev == Ok::<Address, Fault>(
                (self.current - self.step_size) as usize,
            ),
            !self.holds(self.current - self.step_size) ==> prev == Err::<Address, Fault>(
                Fault::OutOfRange,
            ),
    {
        match self.current.checked_sub(self.step_size) {
            Some(prev) => if self.contains(prev) {
                Ok(prev)
            } else {
                Err(Fault::OutOfRange)
            },
            None => Err(Fault::OutOfRange),
        }
    }

    /// Moves the cursor to `addr`, if the region holds it.
    pub fn set(&mut self, addr: Address) -> (moved: Result<(), Fault>)
        ensures
            final(self).range == old(self).range,
            final(self).step_size == old(self).step_size,
            old(self).holds(addr as int) ==> moved is Ok && final(self).current == addr,
            !old(self).holds(addr as int) ==> moved == Err::<(), Fault>(Fault::OutOfRange)
                && final(self).current == old(self).current,
    {
        if self.contains(addr) {
            self.current = addr;
            Ok(())
        } else {
            Err(Fault::OutOfRange)
        }
    }

    /// Moves the cursor one step ahead, if the region holds that address.
    pub fn move_forward(&mut self) -> (moved: Result<(), Fault>)
        ensures
            final(self).range == old(self).range,
            final(self).step_size == old(self).step_size,
            old(self).holds(old(self).current + old(self).step_size) ==> moved is Ok
                && final(self).current == old(self).current + old(self).step_size,
            !old(self).holds(old(self).current + old(self).step_size) ==> moved == Err::<(), Fault>(
                Fault::OutOfRange,
            ) && final(self).current == old(self).current,
    {
        let next = self.next()?;
        self.set(next)
    }

    /// Moves the cursor one step back, if the region holds that address.
    pub fn move_backward(&mut self) -> (moved: Result<(), Fault>)
        ensures
            final(self).range == old(self).range,
            final(self).step_size == old(self).step_size,
            old(self).holds(old(self).current - old(self).step_size) ==> moved is Ok
                && final(self).current == old(self).current - old(self).step_size,
            !old(self).holds(old(self).current - old(self).step_size) ==> moved == Err::<(), Fault>(
                Fault::OutOfRange,
            ) && final(self).current == old(self).current,
    {
        let prev = self.prev()?;
        self.set(prev)
    }
}

} // verus!
