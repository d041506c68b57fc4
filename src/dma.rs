use vstd::prelude::*;

use crate::error::DmaError;

verus! {

/// Whether `a` is a usable buffer alignment: a power of two.
pub open spec fn is_alignment(a: u64) -> bool {
    a != 0 && a & ((a - 1) as u64) == 0
}

/// A zero-initialised I/O buffer. It records the alignment its device asks
/// for, to be honoured by whoever places it in driver memory; the bytes
/// themselves live in an ordinary vector.
#[derive(Debug)]
pub struct DmaBuf {
    data: Vec<u8>,
    alignment: u64,
}

impl DmaBuf {
    pub closed spec fn view(&self) -> Seq<u8> {
        self.data@
    }

    pub closed spec fn spec_alignment(&self) -> u64 {
        self.alignment
    }

    /// Allocates `size` zero bytes aligned to `alignment`.
    pub fn new(size: usize, alignment: u64) -> (r: Result<DmaBuf, DmaError>)
        ensures
            is_alignment(alignment) ==> r is Ok && r->Ok_0@ == Seq::new(size as nat, |i: int| 0u8)
                && r->Ok_0.spec_alignment() == alignment,
            !is_alignment(alignment) ==> r == Err::<DmaBuf, DmaError>(
                DmaError::Alignment { alignment },
            ),
    {
        if alignment == 0 || alignment & (alignment - 1) != 0 {
            return Err(DmaError::Alignment { alignment });
        }
        let mut data: Vec<u8> = Vec::with_capacity(size);
        let mut i: usize = 0;
        while i < size
            invariant
                i <= size,
                data@ == Seq::new(i as nat, |k: int| 0u8),
            decreases size - i,
        {
            data.push(0);
            i += 1;
        }
        assert(data@ =~= Seq::new(size as nat, |k: int| 0u8));
        Ok(DmaBuf { data, alignment })
    }

    pub fn len(&self) -> (r: usize)
        ensures
            r == self@.len(),
    {
        self.data.len()
    }

    pub fn alignment(&self) -> (r: u64)
        ensures
            r == self.spec_alignment(),
    {
        self.alignment
    }

    /// The buffer's bytes.
    pub fn as_slice(&self) -> (r: &[u8])
        ensures
            r@ == self@,
    {
        self.data.as_slice()
    }

    /// Fills the buffer from `src`, which must have the buffer's length.
    pub fn fill_from(&mut self, src: &[u8])
        requires
            src@.len() == old(self)@.len(),
        ensures
            final(self)@ == src@,
            final(self).spec_alignment() == old(self).spec_alignment(),
    {
        let mut i: usize = 0;
        while i < src.len()
            invariant
                i <= src@.len(),
                src@.len() == self.data@.len(),
                self.alignment == old(self).alignment,
                forall|k: int| 0 <= k < i ==> self.data@[k] == src@[k],
            decreases src@.len() - i,
        {
            self.data.set(i, src[i]);
            i += 1;
        }
        assert(self.data@ =~= src@);
    }
}

} // verus!
