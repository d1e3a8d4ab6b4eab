//! The allocator that a buffer takes its memory from.

use crate::layout::Layout;
use vstd::prelude::*;

verus! {

/// The allocator could not give the memory that was asked for.
#[derive(Clone, Copy, Debug, PartialEq, Eq, Structural)]
pub struct AllocError;

/// What an allocator records of a block that it has handed out.
pub struct Block {
    /// The layout that the block was last asked for with.
    pub layout: Layout,
    /// Whether every byte of the block was zero when it was handed out.
    pub zeroed: bool,
}

/// A source of memory blocks.
///
/// A block is known by its address. It belongs to whoever asked for it until
/// it is handed back with [`deallocate`](Allocator::deallocate) or exchanged
/// for a larger one with [`grow`](Allocator::grow). The contracts below are
/// the terms on which a buffer uses an allocator: everything that is proved
/// of a buffer holds with an allocator that keeps to them.
pub trait Allocator: Sized {
    /// The blocks that are handed out at present, by address.
    ///
    /// An allocator that keeps no record states none; written in ordinary
    /// Rust it has nothing to state.
    open spec fn blocks(&self) -> Map<usize, Block> {
        Map::empty()
    }

    /// Hands out a new block of `layout.size()` bytes, aligned to
    /// `layout.align()`, or fails and changes nothing.
    fn allocate(&mut self, layout: Layout) -> (r: Result<usize, AllocError>)
        requires
            layout.spec_size() > 0,
        ensures
            match r {
                Ok(addr) => {
                    &&& addr != 0
                    &&& addr % layout.spec_align() == 0
                    &&& !old(self).blocks().dom().contains(addr)
                    &&& final(self).blocks() == old(self).blocks().insert(
                        addr,
                        (Block { layout, zeroed: false }),
                    )
                },
                Err(_) => final(self).blocks() == old(self).blocks(),
            },
    ;

    /// As [`allocate`](Allocator::allocate); the bytes of the new block are
    /// zero.
    fn allocate_zeroed(&mut self, layout: Layout) -> (r: Result<usize, AllocError>)
        requires
            layout.spec_size() > 0,
        ensures
            match r {
                Ok(addr) => {
                    &&& addr != 0
                    &&& addr % layout.spec_align() == 0
                    &&& !old(self).blocks().dom().contains(addr)
                    &&& final(self).blocks() == old(self).blocks().insert(
                        addr,
                        (Block { layout, zeroed: true }),
                    )
                },
                Err(_) => final(self).blocks() == old(self).blocks(),
            },
    ;

    /// Exchanges the block at `addr` for one with `new_layout`, which keeps
    /// the bytes of the old one and may hold anything behind them; the new
    /// block may stand at the same address or at another. On failure the old
    /// block is still handed out, as it was.
    fn grow(&mut self, addr: usize, old_layout: Layout, new_layout: Layout) -> (r: Result<
        usize,
        AllocError,
    >)
        requires
            old(self).blocks().dom().contains(addr),
            old(self).blocks()[addr].layout == old_layout,
            new_layout.spec_size() >= old_layout.spec_size(),
            new_layout.spec_size() > 0,
        ensures
            match r {
                Ok(new_addr) => {
                    &&& new_addr != 0
                    &&& new_addr % new_layout.spec_align() == 0
                    &&& !old(self).blocks().remove(addr).dom().contains(new_addr)
                    &&& final(self).blocks() == old(self).blocks().remove(addr).insert(
                        new_addr,
                        (Block { layout: new_layout, zeroed: false }),
                    )
                },
                Err(_) => final(self).blocks() == old(self).blocks(),
            },
    ;

    /// Takes back the block at `addr`.
    fn deallocate(&mut self, addr: usize, layout: Layout)
        requires
            old(self).blocks().dom().contains(addr),
            old(self).blocks()[addr].layout == layout,
        ensures
            final(self).blocks() == old(self).blocks().remove(addr),
    ;
}

} // verus!
