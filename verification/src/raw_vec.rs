//! The buffer itself: its state, how it is made, how it grows and how it
//! gives its memory back.

use crate::allocator::{AllocError, Allocator, Block};
use crate::layout::{array_fits, Layout, LayoutError};
use core::marker::PhantomData;
use vstd::layout::{align_of, size_of};
use vstd::prelude::*;
use vstd::std_specs::convert::FromSpecImpl;

verus! {

/// Why a buffer could not be made or grown.
#[derive(Clone, Copy, Debug, PartialEq, Eq, Structural)]
pub enum Failure {
    /// The capacity cannot be laid out in memory, or the buffer holds no
    /// block that could grow.
    Layout,
    /// The allocator gave no memory, or the number of elements asked for
    /// passes `usize::MAX`.
    Allocation,
    /// The byte size passes what an allocation may have.
    CapacityOverflow,
}

impl From<LayoutError> for Failure {
    fn from(e: LayoutError) -> (r: Failure) {
        Failure::Layout
    }
}

impl FromSpecImpl<LayoutError> for Failure {
    open spec fn obeys_from_spec() -> bool {
        true
    }

    open spec fn from_spec(e: LayoutError) -> Failure {
        Failure::Layout
    }
}

impl From<AllocError> for Failure {
    fn from(e: AllocError) -> (r: Failure) {
        Failure::Allocation
    }
}

impl FromSpecImpl<AllocError> for Failure {
    open spec fn obeys_from_spec() -> bool {
        true
    }

    open spec fn from_spec(e: AllocError) -> Failure {
        Failure::Allocation
    }
}

/// What the bytes of a new block hold.
#[derive(Clone, Copy, Debug, PartialEq, Eq, Structural)]
pub enum AllocInit {
    /// Every byte is zero.
    Zeroed,
    /// The bytes may hold anything.
    Uninitialized,
}

/// Refuses a byte size that passes `isize::MAX`, the most that one
/// allocation may have.
pub fn alloc_guard(size: usize) -> (r: Result<(), Failure>)
    ensures
        r == if size <= isize::MAX {
            Ok::<(), Failure>(())
        } else {
            Err::<(), Failure>(Failure::CapacityOverflow)
        },
{
    if size > isize::MAX as usize {
        Err(Failure::CapacityOverflow)
    } else {
        Ok(())
    }
}

/// The least capacity that a buffer grows to, by the size of its elements:
/// small elements come eight or four at a time, so that a buffer of them does
/// not grow by tiny steps, and large ones come singly.
pub open spec fn spec_min_non_zero_cap(elem_size: nat) -> nat {
    if elem_size == 1 {
        8
    } else if elem_size <= 1024 {
        4
    } else {
        1
    }
}

/// The capacity that a buffer of `capacity` elements grows to when
/// `required` elements must fit: twice the old capacity or what is required,
/// whichever is more, and at least [`spec_min_non_zero_cap`].
pub open spec fn grown_capacity(capacity: nat, required: nat, elem_size: nat) -> nat {
    let doubled = 2 * capacity;
    let wanted = if doubled >= required {
        doubled
    } else {
        required
    };
    if wanted >= spec_min_non_zero_cap(elem_size) {
        wanted
    } else {
        spec_min_non_zero_cap(elem_size)
    }
}

/// Room for `capacity` elements of type `T`, taken from the allocator `A`.
///
/// The buffer does not know which of its elements are initialised: that is
/// for its owner to track. For a type of size zero it never holds memory and
/// only counts the capacity; with capacity zero it holds no memory either.
/// Its address is then a placeholder, aligned for `T`.
pub struct RawVec<T, A: Allocator> {
    ptr: usize,
    cap: usize,
    alloc: A,
    marker: PhantomData<T>,
}

impl<T, A: Allocator> RawVec<T, A> {
    /// The number of elements that the buffer has room for.
    pub closed spec fn spec_capacity(&self) -> usize {
        self.cap
    }

    /// The address of the buffer's memory, or the placeholder.
    pub closed spec fn spec_ptr(&self) -> usize {
        self.ptr
    }

    /// The allocator that the buffer takes its memory from.
    pub closed spec fn spec_allocator(&self) -> &A {
        &self.alloc
    }

    /// Whether the buffer holds a block of its allocator.
    pub open spec fn holds_block(&self) -> bool {
        size_of::<T>() != 0 && self.spec_capacity() != 0
    }

    /// The state of every buffer: its address is aligned for `T` and not
    /// zero; where it holds a block, the block is one that its allocator has
    /// handed out, with the layout of an array of `capacity` elements; where
    /// it holds none, its address is the placeholder.
    pub open spec fn wf(&self) -> bool {
        &&& self.spec_ptr() != 0
        &&& self.spec_ptr() as int % align_of::<T>() as int == 0
        &&& if self.holds_block() {
            &&& array_fits::<T>(self.spec_capacity() as nat)
            &&& self.spec_allocator().blocks().dom().contains(self.spec_ptr())
            &&& self.spec_allocator().blocks()[self.spec_ptr()].layout == Layout::spec_array::<T>(
                self.spec_capacity() as nat,
            )
        } else {
            self.spec_ptr() == align_of::<T>()
        }
    }

    /// The layout of an array of `capacity` elements, where there is one.
    pub fn layout(capacity: usize) -> (r: Result<Layout, LayoutError>)
        ensures
            match r {
                Ok(l) => {
                    &&& array_fits::<T>(capacity as nat)
                    &&& l == Layout::spec_array::<T>(capacity as nat)
                    &&& l.spec_size() == capacity * size_of::<T>()
                    &&& l.spec_align() == align_of::<T>()
                    &&& l.spec_size() == 0 <==> capacity == 0 || size_of::<T>() == 0
                },
                Err(_) => !array_fits::<T>(capacity as nat),
            },
    {
        Layout::array::<T>(capacity)
    }

    /// The least capacity that a buffer of `T` grows to.
    pub fn min_non_zero_cap() -> (c: usize)
        ensures
            c == spec_min_non_zero_cap(size_of::<T>()),
    {
        let size = core::mem::size_of::<T>();
        if size == 1 {
            8
        } else if size <= 1024 {
            4
        } else {
            1
        }
    }

    /// An empty buffer: capacity zero and no memory. The allocator is kept
    /// for later and not called.
    pub fn new_in(alloc: A) -> (r: Self)
        ensures
            r.wf(),
            !r.holds_block(),
            r.spec_capacity() == 0,
            r.spec_ptr() == align_of::<T>(),
            *r.spec_allocator() == alloc,
    {
        proof {
            lemma_placeholder::<T>();
        }
        RawVec { ptr: core::mem::align_of::<T>(), cap: 0, alloc, marker: PhantomData }
    }

    /// The number of elements that the buffer has room for.
    #[verifier::when_used_as_spec(spec_capacity)]
    pub fn capacity(&self) -> (c: usize)
        ensures
            c == self.spec_capacity(),
    {
        self.cap
    }

    /// The address of the buffer's memory; where the buffer holds none, a
    /// placeholder that must not be read or written through.
    #[verifier::when_used_as_spec(spec_ptr)]
    pub fn ptr(&self) -> (p: usize)
        ensures
            p == self.spec_ptr(),
    {
        self.ptr
    }

    /// The allocator that the buffer takes its memory from.
    #[verifier::when_used_as_spec(spec_allocator)]
    pub fn allocator(&self) -> (a: &A)
        ensures
            a == self.spec_allocator(),
    {
        &self.alloc
    }

    /// The address and the layout of the block that the buffer holds, if it
    /// holds one.
    fn current_memory(&self) -> (r: Option<(usize, Layout)>)
        requires
            self.wf(),
        ensures
            match r {
                Some((addr, layout)) => {
                    &&& self.holds_block()
                    &&& addr == self.spec_ptr()
                    &&& layout == Layout::spec_array::<T>(self.spec_capacity() as nat)
                    &&& layout.spec_size() == self.spec_capacity() * size_of::<T>()
                    &&& layout.spec_size() > 0
                },
                None => !self.holds_block(),
            },
    {
        if core::mem::size_of::<T>() == 0 || self.cap == 0 {
            return None;
        }
        match Self::layout(self.cap) {
            Ok(layout) => Some((self.ptr, layout)),
            Err(_) => None,
        }
    }

    /// Takes from `alloc` the memory for `capacity` elements and returns its
    /// address.
    ///
    /// Elements of size zero and a capacity of zero need no memory: the
    /// address is then the placeholder and the allocator is not called. A
    /// capacity that cannot be laid out is refused before the allocator is
    /// called. Otherwise the allocator is asked once, for a block with the
    /// layout of the array, zeroed or not as `init` says, and its refusal is
    /// reported as [`Failure::Allocation`].
    pub fn try_allocate_in(capacity: usize, init: AllocInit, alloc: &mut A) -> (r: Result<
        usize,
        Failure,
    >)
        ensures
            size_of::<T>() == 0 || capacity == 0 ==> {
                &&& r matches Ok(addr)
                &&& addr == align_of::<T>()
                &&& *final(alloc) == *old(alloc)
            },
            size_of::<T>() != 0 && capacity != 0 && !array_fits::<T>(capacity as nat) ==> {
                &&& r == Err::<usize, Failure>(Failure::Layout)
                &&& *final(alloc) == *old(alloc)
            },
            size_of::<T>() != 0 && capacity != 0 && array_fits::<T>(capacity as nat) ==> match r {
                Ok(addr) => {
                    &&& addr != 0
                    &&& addr as int % align_of::<T>() as int == 0
                    &&& !old(alloc).blocks().dom().contains(addr)
                    &&& final(alloc).blocks() == old(alloc).blocks().insert(
                        addr,
                        (Block {
                            layout: Layout::spec_array::<T>(capacity as nat),
                            zeroed: init is Zeroed,
                        }),
                    )
                },
                Err(e) => {
                    &&& e == Failure::Allocation
                    &&& final(alloc).blocks() == old(alloc).blocks()
                },
            },
    {
        if core::mem::size_of::<T>() == 0 || capacity == 0 {
            return Ok(core::mem::align_of::<T>());
        }
        let layout = match Self::layout(capacity) {
            Ok(layout) => layout,
            Err(e) => {
                return Err(Failure::from(e));
            },
        };
        match alloc_guard(layout.size()) {
            Ok(()) => {},
            Err(e) => {
                return Err(e);
            },
        }
        let answer = match init {
            AllocInit::Zeroed => alloc.allocate_zeroed(layout),
            AllocInit::Uninitialized => alloc.allocate(layout),
        };
        match answer {
            Ok(addr) => Ok(addr),
            Err(e) => Err(Failure::from(e)),
        }
    }

    /// A buffer with room for exactly `capacity` elements, its bytes zeroed
    /// or not as `init` says.
    ///
    /// This succeeds without calling the allocator where no memory is
    /// needed, fails with [`Failure::Layout`] where the capacity cannot be
    /// laid out, and otherwise does as the allocator answers: the buffer
    /// holds the block that the allocator handed out, or the call fails with
    /// [`Failure::Allocation`].
    pub fn allocate_in(capacity: usize, init: AllocInit, alloc: A) -> (r: Result<Self, Failure>)
        ensures
            size_of::<T>() == 0 || capacity == 0 ==> r is Ok,
            match r {
                Ok(buf) => {
                    &&& buf.wf()
                    &&& buf.spec_capacity() == capacity
                    &&& if buf.holds_block() {
                        &&& !alloc.blocks().dom().contains(buf.spec_ptr())
                        &&& buf.spec_allocator().blocks() == alloc.blocks().insert(
                            buf.spec_ptr(),
                            (Block {
                                layout: Layout::spec_array::<T>(capacity as nat),
                                zeroed: init is Zeroed,
                            }),
                        )
                    } else {
                        *buf.spec_allocator() == alloc
                    }
                },
                Err(e) => {
                    &&& size_of::<T>() != 0
                    &&& capacity != 0
                    &&& e == if array_fits::<T>(capacity as nat) {
                        Failure::Allocation
                    } else {
                        Failure::Layout
                    }
                },
            },
    {
        proof {
            lemma_placeholder::<T>();
        }
        let mut alloc = alloc;
        match Self::try_allocate_in(capacity, init, &mut alloc) {
            Ok(ptr) => Ok(RawVec { ptr, cap: capacity, alloc, marker: PhantomData }),
            Err(e) => Err(e),
        }
    }

    /// A buffer with room for exactly `capacity` elements, whose bytes may
    /// hold anything. See [`allocate_in`](RawVec::allocate_in).
    pub fn with_capacity_in(cap: usize, alloc: A) -> (r: Result<Self, Failure>)
        ensures
            size_of::<T>() == 0 || cap == 0 ==> r is Ok,
            match r {
                Ok(buf) => {
                    &&& buf.wf()
                    &&& buf.spec_capacity() == cap
                    &&& if buf.holds_block() {
                        &&& !alloc.blocks().dom().contains(buf.spec_ptr())
                        &&& buf.spec_allocator().blocks() == alloc.blocks().insert(
                            buf.spec_ptr(),
                            (Block { layout: Layout::spec_array::<T>(cap as nat), zeroed: false }),
                        )
                    } else {
                        *buf.spec_allocator() == alloc
                    }
                },
                Err(e) => {
                    &&& size_of::<T>() != 0
                    &&& cap != 0
                    &&& e == if array_fits::<T>(cap as nat) {
                        Failure::Allocation
                    } else {
                        Failure::Layout
                    }
                },
            },
    {
        Self::allocate_in(cap, AllocInit::Uninitialized, alloc)
    }

    /// Takes the allocator's answer to a request to grow the buffer's block
    /// to `capacity` elements: on success the buffer holds the new block, on
    /// refusal it stays as it was and the failure is
    /// [`Failure::Allocation`].
    fn finish_grow(&mut self, answer: Result<usize, AllocError>, capacity: usize) -> (r: Result<
        (),
        Failure,
    >)
        requires
            match answer {
                Ok(addr) => {
                    &&& addr != 0
                    &&& addr as int % align_of::<T>() as int == 0
                    &&& size_of::<T>() != 0
                    &&& capacity != 0
                    &&& array_fits::<T>(capacity as nat)
                    &&& old(self).spec_allocator().blocks().dom().contains(addr)
                    &&& old(self).spec_allocator().blocks()[addr].layout == Layout::spec_array::<T>(
                        capacity as nat,
                    )
                },
                Err(_) => old(self).wf(),
            },
        ensures
            final(self).wf(),
            match answer {
                Ok(addr) => {
                    &&& r == Ok::<(), Failure>(())
                    &&& final(self).spec_ptr() == addr
                    &&& final(self).spec_capacity() == capacity
                    &&& final(self).spec_allocator() == old(self).spec_allocator()
                },
                Err(_) => {
                    &&& r == Err::<(), Failure>(Failure::Allocation)
                    &&& *final(self) == *old(self)
                },
            },
    {
        match answer {
            Ok(addr) => {
                self.ptr = addr;
                self.cap = capacity;
                Ok(())
            },
            Err(e) => Err(Failure::from(e)),
        }
    }

    /// Makes room for at least `len + additional` elements, where `len` is
    /// the number of elements in use, which the owner of the buffer knows.
    ///
    /// The new capacity is [`grown_capacity`]: at least twice the old one,
    /// so that a sequence of appends copies each element a bounded number of
    /// times on average. The steps, in order:
    /// - `len + additional` that passes `usize::MAX` is refused with
    ///   [`Failure::Allocation`];
    /// - for elements of size zero there is nothing to do;
    /// - a new capacity that cannot be laid out, and a buffer that holds no
    ///   block (it must be made with its capacity, not grown to it), are
    ///   refused with [`Failure::Layout`];
    /// - the allocator is asked once to grow the block, and its refusal is
    ///   reported as [`Failure::Allocation`].
    ///
    /// A call that fails leaves the buffer as it was, with its block and its
    /// capacity; up to the last step the allocator is not called.
    pub fn grow(&mut self, len: usize, additional: usize) -> (r: Result<(), Failure>)
        requires
            old(self).wf(),
        ensures
            final(self).wf(),
            ({
                let required = len + additional;
                let target = grown_capacity(
                    old(self).spec_capacity() as nat,
                    required as nat,
                    size_of::<T>(),
                );
                if required > usize::MAX {
                    &&& r == Err::<(), Failure>(Failure::Allocation)
                    &&& *final(self) == *old(self)
                } else if size_of::<T>() == 0 {
                    &&& r == Ok::<(), Failure>(())
                    &&& *final(self) == *old(self)
                } else if !old(self).holds_block() || !array_fits::<T>(target) {
                    &&& r == Err::<(), Failure>(Failure::Layout)
                    &&& *final(self) == *old(self)
                } else {
                    let before = old(self).spec_allocator().blocks();
                    let after = final(self).spec_allocator().blocks();
                    match r {
                        Ok(()) => {
                            &&& final(self).spec_capacity() == target
                            &&& !before.remove(old(self).spec_ptr()).dom().contains(
                                final(self).spec_ptr(),
                            )
                            &&& after == before.remove(old(self).spec_ptr()).insert(
                                final(self).spec_ptr(),
                                (Block {
                                    layout: Layout::spec_array::<T>(target),
                                    zeroed: false,
                                }),
                            )
                        },
                        Err(e) => {
                            &&& e == Failure::Allocation
                            &&& final(self).spec_ptr() == old(self).spec_ptr()
                            &&& final(self).spec_capacity() == old(self).spec_capacity()
                            &&& after == before
                        },
                    }
                }
            }),
            r is Ok && size_of::<T>() != 0 ==> {
                &&& final(self).spec_capacity() >= len + additional
                &&& final(self).spec_capacity() >= 2 * old(self).spec_capacity()
                &&& final(self).spec_capacity() >= spec_min_non_zero_cap(size_of::<T>())
            },
    {
        let required = match len.checked_add(additional) {
            Some(required) => required,
            None => {
                return Err(Failure::Allocation);
            },
        };
        if core::mem::size_of::<T>() == 0 {
            return Ok(());
        }
        let capacity = self.cap;
        proof {
            lemma_capacity_bound::<T>(capacity as nat);
        }
        let doubled = capacity * 2;
        let wanted = if doubled >= required {
            doubled
        } else {
            required
        };
        let floor = Self::min_non_zero_cap();
        let cap = if wanted >= floor {
            wanted
        } else {
            floor
        };
        let new_layout = match Self::layout(cap) {
            Ok(layout) => layout,
            Err(e) => {
                return Err(Failure::from(e));
            },
        };
        match alloc_guard(new_layout.size()) {
            Ok(()) => {},
            Err(e) => {
                return Err(e);
            },
        }
        match self.current_memory() {
            Some((addr, old_layout)) => {
                assert(new_layout.spec_size() >= old_layout.spec_size()) by (nonlinear_arith)
                    requires
                        new_layout.spec_size() == cap * size_of::<T>(),
                        old_layout.spec_size() == capacity * size_of::<T>(),
                        cap >= capacity,
                ;
                let answer = self.alloc.grow(addr, old_layout, new_layout);
                self.finish_grow(answer, cap)
            },
            None => Err(Failure::Layout),
        }
    }

    /// Gives the buffer's block back to its allocator, if it holds one, and
    /// leaves the buffer empty.
    ///
    /// The block goes back with the layout of the buffer's capacity as it is
    /// now. A buffer that holds no block is left as it is and the allocator
    /// is not called, so that a second call does nothing.
    pub fn release(&mut self)
        requires
            old(self).wf(),
        ensures
            final(self).wf(),
            !final(self).holds_block(),
            if old(self).holds_block() {
                &&& final(self).spec_capacity() == 0
                &&& final(self).spec_ptr() == align_of::<T>()
                &&& final(self).spec_allocator().blocks() == old(
                    self,
                ).spec_allocator().blocks().remove(old(self).spec_ptr())
            } else {
                *final(self) == *old(self)
            },
    {
        proof {
            lemma_placeholder::<T>();
        }
        match self.current_memory() {
            Some((addr, layout)) => {
                self.alloc.deallocate(addr, layout);
                self.ptr = core::mem::align_of::<T>();
                self.cap = 0;
            },
            None => {},
        }
    }
}

impl<T, A: Allocator + Default> RawVec<T, A> {
    /// An empty buffer on an allocator of its own: capacity zero and no
    /// memory. This never fails.
    pub fn new() -> (r: Self)
        ensures
            r.wf(),
            !r.holds_block(),
            r.spec_capacity() == 0,
            r.spec_ptr() == align_of::<T>(),
    {
        Self::new_in(A::default())
    }

    /// A buffer on an allocator of its own, with room for exactly `cap`
    /// elements, whose bytes may hold anything. See
    /// [`allocate_in`](RawVec::allocate_in).
    pub fn with_capacity(cap: usize) -> (r: Result<Self, Failure>)
        ensures
            size_of::<T>() == 0 || cap == 0 ==> r is Ok,
            match r {
                Ok(buf) => {
                    &&& buf.wf()
                    &&& buf.spec_capacity() == cap
                },
                Err(e) => {
                    &&& size_of::<T>() != 0
                    &&& cap != 0
                    &&& e == if array_fits::<T>(cap as nat) {
                        Failure::Allocation
                    } else {
                        Failure::Layout
                    }
                },
            },
    {
        Self::with_capacity_in(cap, A::default())
    }
}

/// The alignment of `T` serves as the address of a buffer without memory: it
/// is not zero and it is aligned for `T`.
proof fn lemma_placeholder<T>()
    ensures
        align_of::<T>() != 0,
        align_of::<T>() as int % align_of::<T>() as int == 0,
{
    broadcast use vstd::layout::group_align_properties;

    vstd::arithmetic::div_mod::lemma_mod_self_0(align_of::<T>() as int);
}

/// A capacity that can be laid out, of elements that have a size, is at most
/// `isize::MAX`; twice as much is still a `usize`.
proof fn lemma_capacity_bound<T>(capacity: nat)
    requires
        size_of::<T>() != 0,
        capacity != 0 ==> array_fits::<T>(capacity),
    ensures
        capacity <= isize::MAX,
        2 * capacity <= usize::MAX,
{
    broadcast use vstd::layout::group_align_properties;

    if capacity != 0 {
        assert(capacity <= capacity * size_of::<T>()) by (nonlinear_arith)
            requires
                size_of::<T>() >= 1,
        ;
    }
}

} // verus!
