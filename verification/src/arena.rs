//! A bump allocator over one buffer of bytes.

use vstd::prelude::*;

verus! {

/// A buffer from which byte ranges are handed out one after the other.
pub struct Arena {
    pub(crate) buffer: Vec<u8>,
    pub(crate) offset: usize,
    pub(crate) pages: Vec<Vec<u8>>,
}

impl Arena {
    /// The bytes of the buffer.
    pub open(crate) spec fn bytes(&self) -> Seq<u8> {
        self.buffer@
    }

    /// The number of bytes handed out so far.
    pub open(crate) spec fn used(&self) -> nat {
        self.offset as nat
    }

    /// The pages allocated so far.
    pub open(crate) spec fn page_list(&self) -> Seq<Vec<u8>> {
        self.pages@
    }

    /// An arena over `cap` zero bytes, of which none is handed out.
    pub fn new(cap: usize) -> (a: Self)
        ensures
            a.bytes() == Seq::new(cap as nat, |i: int| 0u8),
            a.used() == 0,
            a.page_list().len() == 0,
    {
        let mut buffer: Vec<u8> = Vec::new();
        let mut i: usize = 0;
        while i < cap
            invariant
                i <= cap,
                buffer@ == Seq::new(i as nat, |j: int| 0u8),
            decreases cap - i,
        {
            buffer.push(0u8);
            i += 1;
        }
        Arena { buffer, offset: 0, pages: Vec::new() }
    }

    /// Adds an empty page and gives read access to it.
    pub fn alloc_page(&mut self) -> (page: &Vec<u8>)
        ensures
            page@.len() == 0,
            final(self).page_list().len() == old(self).page_list().len() + 1,
            final(self).page_list().last() == *page,
            final(self).page_list().drop_last() == old(self).page_list(),
            final(self).bytes() == old(self).bytes(),
            final(self).used() == old(self).used(),
    {
        self.pages.push(Vec::new());
        assert(self.pages@.drop_last() =~= old(self).pages@);
        let last: usize = self.pages.len() - 1;
        &self.pages[last]
    }

    /// Hands out the next `size` bytes of the buffer for writing, if that
    /// many are left; else nothing changes.
    pub fn allocate(&mut self, size: usize) -> (r: Option<&mut [u8]>)
        ensures
            r is Some <==> old(self).used() + size <= old(self).bytes().len(),
            r is Some ==> {
                let start = old(self).used() as int;
                &&& r->0@ == old(self).bytes().subrange(start, start + size)
                &&& final(self).used() == start + size
                &&& final(self).bytes() == old(self).bytes().take(start) + final(r->0)@ + old(
                    self,
                ).bytes().skip(start + size)
                &&& final(self).page_list() == old(self).page_list()
            },
            r is None ==> *final(self) == *old(self),
    {
        if self.offset > self.buffer.len() || size > self.buffer.len() - self.offset {
            return None;
        }
        let start: usize = self.offset;
        self.offset = start + size;
        let ghost before = self.buffer@;
        let all = self.buffer.as_mut_slice();
        let (_, rest) = all.split_at_mut(start);
        let (range, _) = rest.split_at_mut(size);
        proof {
            assert(range@ =~= before.subrange(start as int, start + size));
        }
        Some(range)
    }

    /// Takes back everything that was handed out. The bytes stay as they are.
    pub fn reset(&mut self)
        ensures
            final(self).used() == 0,
            final(self).bytes() == old(self).bytes(),
            final(self).page_list() == old(self).page_list(),
    {
        self.offset = 0;
    }

    /// The number of bytes that can still be handed out.
    pub fn remaining(&self) -> (n: usize)
        ensures
            n == if self.used() <= self.bytes().len() {
                self.bytes().len() - self.used()
            } else {
                0
            },
    {
        if self.offset <= self.buffer.len() {
            self.buffer.len() - self.offset
        } else {
            0
        }
    }

    /// Takes back everything that was handed out and sets every byte to
    /// zero.
    pub fn clear(&mut self)
        ensures
            final(self).used() == 0,
            final(self).bytes() == Seq::new(old(self).bytes().len(), |i: int| 0u8),
            final(self).page_list() == old(self).page_list(),
    {
        let n: usize = self.buffer.len();
        let mut i: usize = 0;
        while i < n
            invariant
                i <= n == self.buffer@.len(),
                self.pages == old(self).pages,
                forall|j: int| 0 <= j < i ==> self.buffer@[j] == 0u8,
            decreases n - i,
        {
            self.buffer[i] = 0u8;
            i += 1;
        }
        assert(self.buffer@ =~= Seq::new(old(self).bytes().len(), |i: int| 0u8));
        self.reset();
    }

    /// The byte at index `i` of the buffer.
    pub fn get(&self, i: usize) -> (b: u8)
        requires
            i < self.bytes().len(),
        ensures
            b == self.bytes()[i as int],
    {
        self.buffer[i]
    }

    /// The whole buffer.
    pub fn buffer(&self) -> (b: &[u8])
        ensures
            b@ == self.bytes(),
    {
        self.buffer.as_slice()
    }
}

} // verus!
