//! Escrow identifiers.

use vstd::prelude::*;
use crate::error::EscrowError;

verus! {

/// Hands out escrow identifiers in increasing order, each one once.
///
/// The allocator fails closed: once the counter has reached the largest
/// 64-bit value it refuses, and never wraps around.
#[derive(Debug)]
pub struct IdAllocator {
    next: u64,
}

impl View for IdAllocator {
    type V = u64;

    /// The identifier that the next allocation hands out.
    closed spec fn view(&self) -> u64 {
        self.next
    }
}

impl IdAllocator {
    /// An allocator that starts at identifier 0.
    pub fn new() -> (r: IdAllocator)
        ensures
            r@ == 0,
    {
        IdAllocator { next: 0 }
    }

    /// An allocator that goes on from a stored counter.
    pub fn resume(next: u64) -> (r: IdAllocator)
        ensures
            r@ == next,
    {
        IdAllocator { next }
    }

    /// The identifier that the next allocation hands out.
    pub fn peek(&self) -> (r: u64)
        ensures
            r == self@,
    {
        self.next
    }

    /// Whether an identifier is left to hand out.
    pub fn has_room(&self) -> (r: bool)
        ensures
            r == (self@ < u64::MAX),
    {
        self.next < u64::MAX
    }

    /// Hands out the current identifier and advances the counter by one, or
    /// refuses and leaves the counter where it is.
    pub fn allocate(&mut self) -> (r: Result<u64, EscrowError>)
        ensures
            old(self)@ < u64::MAX ==> r == Ok::<u64, EscrowError>(old(self)@) && final(self)@
                == old(self)@ + 1,
            old(self)@ == u64::MAX ==> r == Err::<u64, EscrowError>(EscrowError::IdLimitReached)
                && final(self)@ == old(self)@,
    {
        let id = self.next;
        match id.checked_add(1) {
            Some(next) => {
                self.next = next;
                Ok(id)
            },
            None => Err(EscrowError::IdLimitReached),
        }
    }
}

} // verus!
