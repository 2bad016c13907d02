//! The single read buffer shared by all devices. Reads that bypass the page
//! cache need their buffer at an address that is a multiple of the
//! alignment; the buffer therefore holds `alignment` bytes more than its
//! length, so that an aligned window of its length lies inside it wherever
//! the allocator placed it.

use vstd::prelude::*;

verus! {

/// Why a buffer cannot be made.
#[derive(Debug, Clone, Copy, PartialEq, Eq, Structural)]
pub enum BufferError {
    /// The alignment is not a power of two, or the rounded size exceeds
    /// `isize::MAX`, or the storage it needs exceeds the address space.
    InvalidLayout,
}

/// Whether `n` is a power of two.
pub open spec fn is_power_of_two(n: usize) -> bool {
    n > 0 && n & ((n - 1) as usize) == 0
}

/// `size` rounded up to a multiple of `alignment`.
pub open spec fn rounded_size(size: usize, alignment: usize) -> nat {
    ((size + alignment - 1) as nat / alignment as nat) * alignment as nat
}

/// A zeroed buffer of a length that is a multiple of its alignment.
pub struct SharedBuffer {
    storage: Vec<u8>,
    size: usize,
    alignment: usize,
}

impl SharedBuffer {
    /// The buffer's length.
    pub closed spec fn spec_len(&self) -> nat {
        self.size as nat
    }

    /// The buffer's alignment.
    pub closed spec fn spec_alignment(&self) -> nat {
        self.alignment as nat
    }

    /// The bytes the buffer's aligned window is taken from.
    pub closed spec fn storage_view(&self) -> Seq<u8> {
        self.storage@
    }

    /// A buffer of at least `size` bytes, rounded up to a multiple of
    /// `alignment`; an error where `alignment` is not a power of two, the
    /// rounded size exceeds `isize::MAX`, or the storage (the rounded size
    /// and the alignment) exceeds `usize::MAX`.
    pub fn new(size: usize, alignment: usize) -> (r: Result<SharedBuffer, BufferError>)
        requires
            alignment > 0,
            size + alignment <= usize::MAX,
        ensures
            (is_power_of_two(alignment) && rounded_size(size, alignment) <= isize::MAX
                && rounded_size(size, alignment) + alignment <= usize::MAX) <==> r is Ok,
            r matches Ok(b) ==> b.spec_len() == rounded_size(size, alignment) && b.spec_alignment()
                == alignment && b.storage_view().len() == b.spec_len() + alignment && forall|i: int|
                0 <= i < b.storage_view().len() ==> b.storage_view()[i] == 0,
            r matches Err(e) ==> e == BufferError::InvalidLayout,
    {
        let chunks = (size + alignment - 1) / alignment;
        assert(chunks * alignment <= size + alignment - 1) by (nonlinear_arith)
            requires
                chunks == (size + alignment - 1) as nat / alignment as nat,
                alignment > 0,
        ;
        let aligned_size = chunks * alignment;
        let power_of_two = alignment & (alignment - 1) == 0;
        if !power_of_two || aligned_size > isize::MAX as usize {
            return Err(BufferError::InvalidLayout);
        }
        let storage_size = match aligned_size.checked_add(alignment) {
            Some(n) => n,
            None => return Err(BufferError::InvalidLayout),
        };
        let storage = vec![0u8; storage_size];
        Ok(SharedBuffer { storage, size: aligned_size, alignment })
    }

    /// The buffer's length.
    pub fn len(&self) -> (n: usize)
        ensures
            n == self.spec_len(),
    {
        self.size
    }

    /// The buffer's alignment.
    pub fn alignment(&self) -> (n: usize)
        ensures
            n == self.spec_alignment(),
    {
        self.alignment
    }

    /// The bytes an aligned window of the buffer's length is taken from:
    /// `alignment` bytes more than the length.
    pub fn storage_mut(&mut self) -> (s: &mut [u8])
        ensures
            s@ == old(self).storage_view(),
            final(self).storage_view() == final(s)@,
            final(self).spec_len() == old(self).spec_len(),
            final(self).spec_alignment() == old(self).spec_alignment(),
    {
        self.storage.as_mut_slice()
    }
}

} // verus!
