//! A bounded linear byte region with a minimum and a maximum page count.
//!
//! Every host-side read and write is checked against the current size with
//! checked arithmetic: an access whose end lies past the current size fails
//! with [`Error::OutOfBounds`], and growth past `max_pages` fails without a
//! partial allocation.

use vstd::prelude::*;
use crate::result::Error;

verus! {

/// Bytes per linear-memory page.
pub const PAGE_SIZE: u32 = 65536;

/// The largest page count a module may demand; the cap keeps every byte
/// address of the region within a 32-bit address space.
pub const MAX_PAGES: u32 = 65535;

/// A bounded linear memory.  One instance is shared between the bytecode
/// engine and every host function of one sandbox: both sides observe the
/// same bytes and the same size.
pub struct Memory {
    min_pages: u32,
    max_pages: u32,
    bytes: Vec<u8>,
}

impl Memory {
    /// The configured lower page bound.
    pub closed spec fn spec_min_pages(&self) -> u32 {
        self.min_pages
    }

    /// The configured upper page bound.
    pub closed spec fn spec_max_pages(&self) -> u32 {
        self.max_pages
    }

    /// The bytes the memory currently holds.
    pub closed spec fn view(&self) -> Seq<u8> {
        self.bytes@
    }

    /// A memory is well formed when its size is a whole page count between
    /// the two configured bounds.
    pub open spec fn wf(&self) -> bool {
        &&& self.spec_min_pages() <= self.spec_max_pages() <= MAX_PAGES
        &&& self.view().len() % (PAGE_SIZE as nat) == 0
        &&& self.spec_min_pages() as nat * PAGE_SIZE as nat <= self.view().len()
            <= self.spec_max_pages() as nat * PAGE_SIZE as nat
    }

    /// Allocates at least `min_pages` pages immediately.  Bounds that cannot
    /// be met — a lower bound above the upper one, or an upper bound past the
    /// 32-bit address space — fail with `InitMemoryFailed`.
    pub fn new(min_pages: u32, max_pages: u32) -> (r: Result<Memory, Error>)
        ensures
            min_pages <= max_pages <= MAX_PAGES <==> r is Ok,
            r matches Ok(m) ==> m.wf() && m.spec_min_pages() == min_pages
                && m.spec_max_pages() == max_pages
                && m.view() == Seq::<u8>::new(min_pages as nat * PAGE_SIZE as nat, |i: int| 0u8),
            r is Err ==> r == Err::<Memory, Error>(Error::InitMemoryFailed),
    {
        if min_pages > max_pages || max_pages > MAX_PAGES {
            return Err(Error::InitMemoryFailed);
        }
        proof {
            assert(min_pages as nat * PAGE_SIZE as nat <= 65535 * 65536) by (nonlinear_arith)
                requires min_pages <= 65535;
        }
        let len: usize = (min_pages as usize) * (PAGE_SIZE as usize);
        let bytes: Vec<u8> = vec![0u8; len];
        let m = Memory { min_pages, max_pages, bytes };
        proof {
            assert(m.view() =~= Seq::<u8>::new(min_pages as nat * PAGE_SIZE as nat, |i: int| 0u8));
            assert(m.view().len() % (PAGE_SIZE as nat) == 0) by (nonlinear_arith)
                requires m.view().len() == min_pages as nat * PAGE_SIZE as nat;
            assert(min_pages as nat * PAGE_SIZE as nat <= max_pages as nat * PAGE_SIZE as nat)
                by (nonlinear_arith)
                requires min_pages <= max_pages;
        }
        Ok(m)
    }

    /// The current size in bytes.
    pub fn size(&self) -> (r: usize)
        ensures
            r == self.view().len(),
    {
        self.bytes.len()
    }

    /// Reads `len` bytes starting at `offset`.  The read succeeds if and
    /// only if it ends within the current size, and then returns exactly the
    /// bytes held there; otherwise nothing is read.
    pub fn read(&self, offset: u32, len: u32) -> (r: Result<Vec<u8>, Error>)
        ensures
            offset + len <= self.view().len() <==> r is Ok,
            r matches Ok(v) ==> v@ == self.view().subrange(offset as int, offset + len),
            r is Err ==> r == Err::<Vec<u8>, Error>(Error::OutOfBounds),
    {
        let mlen: usize = self.bytes.len();
        if len as usize > mlen || offset as usize > mlen - len as usize {
            return Err(Error::OutOfBounds);
        }
        let stop: usize = offset as usize + len as usize;
        let mut out: Vec<u8> = Vec::new();
        let mut i: usize = offset as usize;
        while i < stop
            invariant
                offset + len <= self.view().len(),
                stop == offset + len,
                offset <= i <= stop,
                out@ == self.view().subrange(offset as int, i as int),
            decreases stop - i,
        {
            out.push(self.bytes[i]);
            proof {
                assert(out@ =~= self.view().subrange(offset as int, i + 1));
            }
            i = i + 1;
        }
        Ok(out)
    }

    /// Writes `data` starting at `offset`.  The write succeeds if and only
    /// if it ends within the current size; it then replaces exactly the
    /// addressed bytes and leaves every other byte and both bounds unchanged.
    /// An out-of-bounds write changes nothing.
    pub fn write(&mut self, offset: u32, data: &[u8]) -> (r: Result<(), Error>)
        ensures
            offset + data@.len() <= old(self).view().len() <==> r is Ok,
            r is Ok ==> final(self).view() == old(self).view().subrange(0, offset as int)
                + data@
                + old(self).view().subrange(offset + data@.len(), old(self).view().len() as int),
            r is Err ==> r == Err::<(), Error>(Error::OutOfBounds) && *final(self) == *old(self),
            final(self).spec_min_pages() == old(self).spec_min_pages(),
            final(self).spec_max_pages() == old(self).spec_max_pages(),
            final(self).view().len() == old(self).view().len(),
            old(self).wf() ==> final(self).wf(),
    {
        let mlen: usize = self.bytes.len();
        if data.len() > mlen || offset as usize > mlen - data.len() {
            return Err(Error::OutOfBounds);
        }
        let mut i: usize = 0;
        while i < data.len()
            invariant
                offset + data@.len() <= old(self).view().len(),
                old(self).view().len() <= usize::MAX,
                0 <= i <= data@.len(),
                self.bytes@.len() == old(self).view().len(),
                self.min_pages == old(self).min_pages,
                self.max_pages == old(self).max_pages,
                forall|j: int| 0 <= j < offset ==> self.bytes@[j] == old(self).view()[j],
                forall|j: int| 0 <= j < i ==> self.bytes@[offset + j] == data@[j],
                forall|j: int| offset + data@.len() <= j < old(self).view().len()
                    ==> self.bytes@[j] == old(self).view()[j],
                forall|j: int| offset + i <= j < offset + data@.len()
                    ==> self.bytes@[j] == old(self).view()[j],
            decreases data@.len() - i,
        {
            let idx: usize = offset as usize + i;
            self.bytes.set(idx, data[i]);
            i = i + 1;
        }
        proof {
            assert(self.view() =~= old(self).view().subrange(0, offset as int)
                + data@
                + old(self).view().subrange(offset + data@.len(), old(self).view().len() as int));
        }
        Ok(())
    }

    /// Grows the memory by `pages` zeroed pages.  Growth past `max_pages`
    /// fails with `OutOfBounds` and allocates nothing.
    pub fn grow(&mut self, pages: u32) -> (r: Result<(), Error>)
        requires
            old(self).wf(),
        ensures
            final(self).wf(),
            final(self).spec_min_pages() == old(self).spec_min_pages(),
            final(self).spec_max_pages() == old(self).spec_max_pages(),
            old(self).view().len() + pages as nat * PAGE_SIZE as nat
                <= old(self).spec_max_pages() as nat * PAGE_SIZE as nat <==> r is Ok,
            r is Ok ==> final(self).view() == old(self).view()
                + Seq::<u8>::new(pages as nat * PAGE_SIZE as nat, |i: int| 0u8),
            r is Err ==> r == Err::<(), Error>(Error::OutOfBounds) && *final(self) == *old(self),
    {
        let added: u64 = pages as u64 * PAGE_SIZE as u64;
        let limit: u64 = self.max_pages as u64 * PAGE_SIZE as u64;
        proof {
            let mp = self.spec_max_pages();
            assert(mp as nat * PAGE_SIZE as nat <= 65535 * 65536) by (nonlinear_arith)
                requires mp <= 65535;
        }
        if self.bytes.len() as u64 + added > limit {
            return Err(Error::OutOfBounds);
        }
        let mut i: u64 = 0;
        while i < added
            invariant
                i <= added,
                added == pages as nat * PAGE_SIZE as nat,
                self.min_pages == old(self).min_pages,
                self.max_pages == old(self).max_pages,
                self.bytes@.len() == old(self).view().len() + i,
                old(self).view().len() + added <= usize::MAX,
                self.bytes@ == old(self).view() + Seq::<u8>::new(i as nat, |j: int| 0u8),
            decreases added - i,
        {
            self.bytes.push(0u8);
            proof {
                assert(self.bytes@ =~= old(self).view()
                    + Seq::<u8>::new((i + 1) as nat, |j: int| 0u8));
            }
            i = i + 1;
        }
        proof {
            let pre_len = old(self).view().len();
            let post_len = self.view().len();
            assert(post_len % (PAGE_SIZE as nat) == 0) by (nonlinear_arith)
                requires
                    post_len == pre_len + pages as nat * PAGE_SIZE as nat,
                    pre_len % (PAGE_SIZE as nat) == 0;
        }
        Ok(())
    }
}

/// Memory bounds, relationally: a write that succeeds is exactly reflected
/// on the next read of the same range.  The sequences name the memory's
/// bytes before and after the write of `data` at `offset`.
pub proof fn lemma_write_then_read(pre: Seq<u8>, post: Seq<u8>, offset: int, data: Seq<u8>)
    requires
        0 <= offset,
        offset + data.len() <= pre.len(),
        post == pre.subrange(0, offset) + data + pre.subrange(offset + data.len(), pre.len() as int),
    ensures
        post.subrange(offset, offset + data.len()) == data,
{
    assert(post.subrange(offset, offset + data.len()) =~= data);
}

} // verus!
