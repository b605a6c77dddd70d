use vstd::prelude::*;

verus! {

/// A zero-initialised heap buffer whose pages are committed only when written.
pub struct HeapRegion {
    bytes: Vec<u8>,
}

impl View for HeapRegion {
    type V = Seq<u8>;

    closed spec fn view(&self) -> Seq<u8> {
        self.bytes@
    }
}

impl HeapRegion {
    /// Reserves `size` zero bytes; the pages are not written here.
    pub fn reserve(size: usize) -> (r: HeapRegion)
        ensures
            r@.len() == size,
            forall|i: int| 0 <= i < size ==> r@[i] == 0,
    {
        let bytes = vec![0u8; size];
        HeapRegion { bytes }
    }

    /// The number of bytes reserved.
    pub fn len(&self) -> (r: usize)
        ensures
            r == self@.len(),
    {
        self.bytes.len()
    }

    /// The bytes of the region, to hand its base address to the pinning call.
    pub fn as_slice(&self) -> (r: &[u8])
        ensures
            r@ == self@,
    {
        self.bytes.as_slice()
    }

    /// Writes `value` over the first `n` bytes, which pages them in.
    pub fn touch(&mut self, n: usize, value: u8)
        requires
            n <= old(self)@.len(),
        ensures
            final(self)@.len() == old(self)@.len(),
            forall|i: int| 0 <= i < n ==> final(self)@[i] == value,
            forall|i: int| n <= i < old(self)@.len() ==> final(self)@[i] == old(self)@[i],
    {
        let mut i: usize = 0;
        while i < n
            invariant
                i <= n,
                n <= old(self)@.len(),
                self@.len() == old(self)@.len(),
                forall|j: int| 0 <= j < i ==> self@[j] == value,
                forall|j: int| i <= j < old(self)@.len() ==> self@[j] == old(self)@[j],
            decreases n - i,
        {
            self.bytes.set(i, value);
            i = i + 1;
        }
    }
}

} // verus!
