//! A smart buffer for holding foreign-interface structures whose size varies:
//! most commonly a struct whose last field is an array sized by another field,
//! or by an external source of information.
//!
//! The buffer owns `size` bytes of storage, viewed abstractly as a sequence of
//! bytes (`self@`). The nominal type `T` gives the layout of the fixed-size
//! header at the start of the storage; positions inside the storage are
//! addressed by [`FieldPtr`] values, which carry a byte offset from the base
//! of the buffer together with the element type they point at.
use vstd::prelude::*;
use vstd::layout::{align_of, size_of};
use vstd::slice::slice_subrange;
use core::marker::PhantomData;

verus! {

/// A byte count that the backing storage can be asked to hold: positive, and
/// small enough that a request of `n` bytes aligned for `T` is representable
/// (the allocator's layout rules cap a request, rounded up to its alignment,
/// at `isize::MAX` bytes).
pub open spec fn valid_size<T>(n: int) -> bool {
    0 < n && n + align_of::<T>() <= isize::MAX as int + 1
}

/// The number of bytes spanned by `count` elements of `U`.
pub open spec fn elem_bytes<U>(count: int) -> int {
    count * size_of::<U>()
}

/// The number of bytes spanned by the whole elements of `U` that fit in
/// `bytes` bytes: a trailing partial element is dropped.
pub open spec fn whole_elem_bytes<U>(bytes: int) -> int
    recommends
        size_of::<U>() > 0,
{
    (bytes / size_of::<U>() as int) * size_of::<U>() as int
}

/// A position inside a [`VariableSizedBox`], expressed as a byte offset from
/// the base of its storage, pointing at an element of type `U`.
///
/// This plays the role a raw pointer into the allocation plays at a foreign
/// interface: it is obtained from the owning buffer's base
/// ([`VariableSizedBox::as_ptr`]) and moved to a field by byte offset
/// ([`FieldPtr::byte_add`]) or retyped ([`FieldPtr::cast`]). It does not
/// borrow the buffer and confers no access by itself: every access through it
/// is bounds-checked against the buffer it is handed back to.
pub struct FieldPtr<U> {
    off: usize,
    elem: PhantomData<U>,
}

impl<U> Clone for FieldPtr<U> {
    fn clone(&self) -> (r: Self)
        ensures
            r.offset() == self.offset(),
    {
        FieldPtr { off: self.off, elem: PhantomData }
    }
}

impl<U> Copy for FieldPtr<U> {
}

impl<U> FieldPtr<U> {
    /// The byte offset from the base of the buffer's storage.
    pub closed spec fn offset(self) -> int {
        self.off as int
    }

    /// The byte offset from the base of the buffer's storage.
    pub fn offset_bytes(self) -> (r: usize)
        ensures
            r == self.offset(),
    {
        self.off
    }

    /// Retypes the pointer, keeping its position.
    pub fn cast<V>(self) -> (r: FieldPtr<V>)
        ensures
            r.offset() == self.offset(),
    {
        FieldPtr { off: self.off, elem: PhantomData }
    }

    /// Moves the pointer `n` bytes forward: the position of a field that
    /// starts `n` bytes into the pointed-at region.
    pub fn byte_add(self, n: usize) -> (r: FieldPtr<U>)
        requires
            self.offset() + n <= usize::MAX,
        ensures
            r.offset() == self.offset() + n,
    {
        FieldPtr { off: self.off + n, elem: PhantomData }
    }
}

/// An owning, variable-sized buffer of bytes, nominally typed by the header
/// type `T`: `T`'s size fixes the header region at the start of the storage,
/// and `T`'s layout rules bound the sizes that may be requested.
///
/// Abstractly the buffer is the sequence of its bytes, `self@`. Its length is
/// chosen at construction, in bytes, and changed only by [`Self::resize`];
/// the storage is released exactly once, when the buffer is dropped.
pub struct VariableSizedBox<T> {
    buf: Vec<u8>,
    header: PhantomData<T>,
}

impl<T> View for VariableSizedBox<T> {
    type V = Seq<u8>;

    closed spec fn view(&self) -> Seq<u8> {
        self.buf@
    }
}

/// Relies on `Vec`'s range indexing (`core::ops::IndexMut` with a
/// `Range<usize>`): `&mut v[i..j]` borrows exactly the bytes from `i`
/// (inclusive) to `j` (exclusive), a borrow of fixed length through which
/// writes change those bytes and no others.
#[verifier::external_body]
fn subslice_mut<'a>(v: &'a mut Vec<u8>, i: usize, j: usize) -> (out: &'a mut [u8])
    requires
        i <= j <= old(v)@.len(),
    ensures
        out@ == old(v)@.subrange(i as int, j as int),
        final(out)@.len() == j - i,
        final(v)@ == old(v)@.subrange(0, i as int) + final(out)@ + old(v)@.subrange(
            j as int,
            old(v)@.len() as int,
        ),
{
    &mut v[i..j]
}

/// A vector of `size` zero bytes.
fn zero_bytes(size: usize) -> (r: Vec<u8>)
    ensures
        r@.len() == size,
        forall|i: int| 0 <= i < size ==> r@[i] == 0u8,
{
    let mut buf: Vec<u8> = Vec::new();
    while buf.len() < size
        invariant
            buf@.len() <= size,
            forall|i: int| 0 <= i < buf@.len() ==> buf@[i] == 0u8,
        decreases size - buf@.len(),
    {
        buf.push(0u8);
    }
    buf
}

impl<T> VariableSizedBox<T> {
    /// The buffer holds a size the storage was legitimately asked for.
    pub open spec fn wf(&self) -> bool {
        valid_size::<T>(self@.len() as int)
    }

    /// Allocates a buffer of `size` bytes, a request `T`'s layout rules
    /// must allow ([`valid_size`]). The contents are left unspecified by
    /// this contract; callers that need known contents start from
    /// [`Self::zeroed`]. Storage exhaustion aborts the process, as the
    /// platform allocator's own failure contract does.
    pub fn new(size: usize) -> (r: VariableSizedBox<T>)
        requires
            valid_size::<T>(size as int),
        ensures
            r@.len() == size,
            r.wf(),
    {
        VariableSizedBox { buf: zero_bytes(size), header: PhantomData }
    }

    /// Allocates a buffer of `size` bytes, a request `T`'s layout rules
    /// must allow ([`valid_size`]), with every byte zero. Storage exhaustion
    /// aborts the process, as the platform allocator's own failure contract
    /// does.
    pub fn zeroed(size: usize) -> (r: VariableSizedBox<T>)
        requires
            valid_size::<T>(size as int),
        ensures
            r@.len() == size,
            forall|i: int| 0 <= i < size ==> r@[i] == 0u8,
            r.wf(),
    {
        VariableSizedBox { buf: zero_bytes(size), header: PhantomData }
    }

    /// The length of the storage, in bytes.
    pub fn len(&self) -> (r: usize)
        ensures
            r == self@.len(),
    {
        self.buf.len()
    }

    /// Changes the storage to hold exactly `size` bytes, a request `T`'s
    /// layout rules must again allow. The overlapping prefix — the first
    /// `min(old length, size)` bytes — is preserved; the contents of any
    /// bytes beyond the old length are left unspecified by this contract
    /// (callers that need them zeroed must zero them). Storage exhaustion
    /// aborts the process, as the platform allocator's own failure contract
    /// does.
    pub fn resize(&mut self, size: usize)
        requires
            valid_size::<T>(size as int),
        ensures
            final(self)@.len() == size,
            forall|i: int|
                0 <= i < old(self)@.len() && i < size ==> final(self)@[i] == old(self)@[i],
            final(self).wf(),
    {
        if size <= self.buf.len() {
            self.buf.truncate(size);
        } else {
            while self.buf.len() < size
                invariant
                    old(self)@.len() <= self.buf@.len() <= size,
                    forall|i: int|
                        0 <= i < old(self)@.len() ==> self.buf@[i] == old(self)@[i],
                decreases size - self.buf@.len(),
            {
                self.buf.push(0u8);
            }
        }
    }

    /// The base of the storage, as a pointer to the nominal header type, for
    /// handing to calls that fill or read the buffer.
    pub fn as_ptr(&self) -> (r: FieldPtr<T>)
        ensures
            r.offset() == 0,
    {
        FieldPtr { off: 0, elem: PhantomData }
    }

    /// The base of the storage, as a pointer to the nominal header type, for
    /// handing to calls that fill or read the buffer.
    pub fn as_mut_ptr(&mut self) -> (r: FieldPtr<T>)
        ensures
            r.offset() == 0,
            *final(self) == *old(self),
    {
        FieldPtr { off: 0, elem: PhantomData }
    }

    /// Re-derives a pointer into this buffer from the buffer's own base, so
    /// that the position it denotes is rooted in the long-lived storage owner
    /// rather than in whatever borrow it was first taken from. Over byte
    /// offsets this re-derivation leaves the position unchanged; it exists so
    /// that every access funnels a position through the owning buffer.
    pub fn sanitize_ptr<U>(&self, o: FieldPtr<U>) -> (r: FieldPtr<U>)
        requires
            o.offset() <= self@.len(),
        ensures
            r.offset() == o.offset(),
    {
        FieldPtr { off: o.offset_bytes(), elem: PhantomData }
    }

    /// Re-derives a pointer into this buffer from the buffer's own base, for
    /// a write access. See [`Self::sanitize_ptr`].
    pub fn sanitize_mut_ptr<U>(&mut self, o: FieldPtr<U>) -> (r: FieldPtr<U>)
        requires
            o.offset() <= old(self)@.len(),
        ensures
            r.offset() == o.offset(),
            *final(self) == *old(self),
    {
        FieldPtr { off: o.offset_bytes(), elem: PhantomData }
    }

    /// The fixed-size header: the first `size_of::<T>()` bytes of the
    /// storage. Reading the header's fields out of these bytes is the
    /// caller's business; this buffer knows `T`'s size and alignment, not its
    /// field layout or validity rules.
    pub fn as_ref(&self) -> (r: &[u8])
        requires
            size_of::<T>() <= self@.len(),
        ensures
            r@ == self@.subrange(0, size_of::<T>() as int),
    {
        let n: usize = core::mem::size_of::<T>();
        slice_subrange(self.buf.as_slice(), 0, n)
    }

    /// The fixed-size header for writing: a mutable borrow of the first
    /// `size_of::<T>()` bytes of the storage. While the borrow lives it is
    /// the only access to the storage; afterwards the storage holds whatever
    /// was written through it, with every byte beyond the header unchanged.
    pub fn as_mut_ref(&mut self) -> (r: &mut [u8])
        requires
            size_of::<T>() <= old(self)@.len(),
        ensures
            r@ == old(self)@.subrange(0, size_of::<T>() as int),
            final(r)@.len() == size_of::<T>(),
            final(self)@ == final(r)@ + old(self)@.subrange(
                size_of::<T>() as int,
                old(self)@.len() as int,
            ),
    {
        let n: usize = core::mem::size_of::<T>();
        subslice_mut(&mut self.buf, 0, n)
    }

    /// Given a pointer to the variable-sized trailing array field and the
    /// length of the array in elements, returns the bytes of the entire
    /// trailing array: `count` elements of `U`, `size_of::<U>()` bytes each,
    /// starting at `o`. How those bytes are read as values of `U` is the
    /// caller's business. The span must lie entirely within the storage;
    /// [`Self::try_slice_from_count`] is the form that checks this at run
    /// time instead.
    pub fn slice_from_count<U>(&self, o: FieldPtr<U>, count: usize) -> (r: &[u8])
        requires
            o.offset() + elem_bytes::<U>(count as int) <= self@.len(),
        ensures
            r@ == self@.subrange(o.offset(), o.offset() + elem_bytes::<U>(count as int)),
    {
        let ptr = self.sanitize_ptr(o);
        proof {
            // the span ends within the storage, whose length fits in usize
            vstd::std_specs::vec::axiom_spec_len(&self.buf);
        }
        let elem_size: usize = core::mem::size_of::<U>();
        let byte_len: usize = count * elem_size;
        let start: usize = ptr.offset_bytes();
        slice_subrange(self.buf.as_slice(), start, start + byte_len)
    }

    /// Given a pointer to the variable-sized trailing array field and the
    /// length of the array in elements, returns the bytes of the entire
    /// trailing array for writing: a mutable borrow of the same span as
    /// [`Self::slice_from_count`]. While the borrow lives it is the only
    /// access to the storage; afterwards the storage holds whatever was
    /// written through it, with every byte outside the span unchanged.
    pub fn slice_from_count_mut<U>(&mut self, o: FieldPtr<U>, count: usize) -> (r: &mut [u8])
        requires
            o.offset() + elem_bytes::<U>(count as int) <= old(self)@.len(),
        ensures
            r@ == old(self)@.subrange(o.offset(), o.offset() + elem_bytes::<U>(count as int)),
            final(r)@.len() == elem_bytes::<U>(count as int),
            final(self)@ == old(self)@.subrange(0, o.offset()) + final(r)@ + old(self)@.subrange(
                o.offset() + elem_bytes::<U>(count as int),
                old(self)@.len() as int,
            ),
    {
        let ptr = self.sanitize_mut_ptr(o);
        proof {
            // the span ends within the storage, whose length fits in usize
            vstd::std_specs::vec::axiom_spec_len(&self.buf);
        }
        let elem_size: usize = core::mem::size_of::<U>();
        let byte_len: usize = count * elem_size;
        let start: usize = ptr.offset_bytes();
        subslice_mut(&mut self.buf, start, start + byte_len)
    }

    /// The bounds-checked counterpart of [`Self::slice_from_count`]: hands
    /// back the trailing-array bytes when the requested span lies within the
    /// storage, and `None` exactly when it does not.
    pub fn try_slice_from_count<U>(&self, o: FieldPtr<U>, count: usize) -> (r: Option<&[u8]>)
        ensures
            match r {
                Some(s) => o.offset() + elem_bytes::<U>(count as int) <= self@.len() && s@
                    == self@.subrange(o.offset(), o.offset() + elem_bytes::<U>(count as int)),
                None => o.offset() + elem_bytes::<U>(count as int) > self@.len(),
            },
    {
        let total: usize = self.buf.len();
        let elem_size: usize = core::mem::size_of::<U>();
        match count.checked_mul(elem_size) {
            Some(byte_len) => {
                if byte_len <= total && o.offset_bytes() <= total - byte_len {
                    Some(self.slice_from_count(o, count))
                } else {
                    None
                }
            },
            None => None,
        }
    }

    /// Given a pointer to the trailing array field and the length of the
    /// array in bytes, returns the bytes of the entire trailing array:
    /// `bytes / size_of::<U>()` whole elements, a trailing partial element
    /// being silently dropped. The element type must not be zero-sized, and
    /// the span must lie entirely within the storage.
    pub fn slice_from_bytes<U>(&self, o: FieldPtr<U>, bytes: usize) -> (r: &[u8])
        requires
            size_of::<U>() > 0,
            o.offset() + whole_elem_bytes::<U>(bytes as int) <= self@.len(),
        ensures
            r@ == self@.subrange(o.offset(), o.offset() + whole_elem_bytes::<U>(bytes as int)),
    {
        let elem_size: usize = core::mem::size_of::<U>();
        let count: usize = bytes / elem_size;
        self.slice_from_count(o, count)
    }

    /// The writing counterpart of [`Self::slice_from_bytes`], under the
    /// borrow discipline of [`Self::slice_from_count_mut`].
    pub fn slice_from_bytes_mut<U>(&mut self, o: FieldPtr<U>, bytes: usize) -> (r: &mut [u8])
        requires
            size_of::<U>() > 0,
            o.offset() + whole_elem_bytes::<U>(bytes as int) <= old(self)@.len(),
        ensures
            r@ == old(self)@.subrange(o.offset(), o.offset() + whole_elem_bytes::<U>(bytes as int)),
            final(r)@.len() == whole_elem_bytes::<U>(bytes as int),
            final(self)@ == old(self)@.subrange(0, o.offset()) + final(r)@ + old(self)@.subrange(
                o.offset() + whole_elem_bytes::<U>(bytes as int),
                old(self)@.len() as int,
            ),
    {
        let elem_size: usize = core::mem::size_of::<U>();
        let count: usize = bytes / elem_size;
        self.slice_from_count_mut(o, count)
    }

    /// Given a pointer to the trailing array field and the size of the whole
    /// struct in bytes — fixed header and trailing array together, as
    /// foreign calls commonly report it — returns the bytes of the entire
    /// trailing array. The array's byte length is `total_bytes` less the
    /// field's offset from the base; a `total_bytes` smaller than that
    /// offset is malformed and excluded, and
    /// [`Self::try_slice_from_total_bytes`] is the form that rejects it at
    /// run time instead. The element type must not be zero-sized, and the
    /// span must lie entirely within the storage.
    pub fn slice_from_total_bytes<U>(&self, o: FieldPtr<U>, total_bytes: usize) -> (r: &[u8])
        requires
            size_of::<U>() > 0,
            o.offset() <= total_bytes,
            o.offset() + whole_elem_bytes::<U>(total_bytes - o.offset()) <= self@.len(),
        ensures
            r@ == self@.subrange(
                o.offset(),
                o.offset() + whole_elem_bytes::<U>(total_bytes - o.offset()),
            ),
    {
        let bytes: usize = total_bytes - o.offset_bytes();
        self.slice_from_bytes(o, bytes)
    }

    /// The writing counterpart of [`Self::slice_from_total_bytes`], under
    /// the borrow discipline of [`Self::slice_from_count_mut`].
    pub fn slice_from_total_bytes_mut<U>(&mut self, o: FieldPtr<U>, total_bytes: usize) -> (r:
        &mut [u8])
        requires
            size_of::<U>() > 0,
            o.offset() <= total_bytes,
            o.offset() + whole_elem_bytes::<U>(total_bytes - o.offset()) <= old(self)@.len(),
        ensures
            r@ == old(self)@.subrange(
                o.offset(),
                o.offset() + whole_elem_bytes::<U>(total_bytes - o.offset()),
            ),
            final(r)@.len() == whole_elem_bytes::<U>(total_bytes - o.offset()),
            final(self)@ == old(self)@.subrange(0, o.offset()) + final(r)@ + old(self)@.subrange(
                o.offset() + whole_elem_bytes::<U>(total_bytes - o.offset()),
                old(self)@.len() as int,
            ),
    {
        let bytes: usize = total_bytes - o.offset_bytes();
        self.slice_from_bytes_mut(o, bytes)
    }

    /// The bounds-checked counterpart of [`Self::slice_from_total_bytes`]:
    /// hands back the trailing-array bytes when `total_bytes` is well formed
    /// and the span lies within the storage, and `None` exactly when the
    /// element type is zero-sized, `total_bytes` is smaller than the field's
    /// offset (the malformed case, which must not wrap around), or the span
    /// would run past the storage.
    pub fn try_slice_from_total_bytes<U>(&self, o: FieldPtr<U>, total_bytes: usize) -> (r: Option<
        &[u8],
    >)
        ensures
            match r {
                Some(s) => size_of::<U>() > 0 && o.offset() <= total_bytes && o.offset()
                    + whole_elem_bytes::<U>(total_bytes - o.offset()) <= self@.len() && s@
                    == self@.subrange(
                    o.offset(),
                    o.offset() + whole_elem_bytes::<U>(total_bytes - o.offset()),
                ),
                None => size_of::<U>() == 0 || total_bytes < o.offset() || o.offset()
                    + whole_elem_bytes::<U>(total_bytes - o.offset()) > self@.len(),
            },
    {
        let elem_size: usize = core::mem::size_of::<U>();
        if elem_size == 0 {
            return None;
        }
        let start: usize = o.offset_bytes();
        if total_bytes < start {
            return None;
        }
        let bytes: usize = total_bytes - start;
        self.try_slice_from_count(o, bytes / elem_size)
    }
}

} // verus!
