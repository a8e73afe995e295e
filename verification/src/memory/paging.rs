//! Virtual pages, their mappings to physical frames, and the interface of
//! the page-table mapper that owns them.

use vstd::prelude::*;
use crate::memory::align::lemma_frame_size_power_of_two;
use crate::memory::frame_allocator::BootInfoFrameAllocator;
use crate::memory::regions::{frame_floor, PhysicalFrame, FRAME_SIZE};

verus! {

/// Flag bit of a mapping that the processor may use for translation.
pub const PRESENT: u64 = 1;

/// Flag bit of a mapping through which memory may be written.
pub const WRITABLE: u64 = 2;

/// A 4096-byte unit of virtual address space, named by its first address.
#[derive(Clone, Copy, Debug, PartialEq, Eq, Structural)]
pub struct Page {
    base: u64,
}

/// The flag bits of one mapping.
#[derive(Clone, Copy, Debug, PartialEq, Eq, Structural)]
pub struct PageFlags {
    pub bits: u64,
}

/// A binding of one virtual page to one physical frame.
#[derive(Clone, Copy, Debug, PartialEq, Eq, Structural)]
pub struct PageMapping {
    pub page: Page,
    pub frame: PhysicalFrame,
    pub flags: PageFlags,
}

/// Why a page could not be mapped.
#[derive(Clone, Copy, Debug, PartialEq, Eq, Structural)]
pub enum MapError {
    /// A table of a level between the root and the page was missing and no
    /// frame was left to hold it.
    FrameAllocationFailed,
    /// The page is bound to a frame already.
    PageAlreadyMapped,
}

/// Why a page could not be unmapped.
#[derive(Clone, Copy, Debug, PartialEq, Eq, Structural)]
pub enum UnmapError {
    /// The page is bound to no frame.
    PageNotMapped,
}

/// What one address space holds: the frame and flag bits of every mapped
/// page, by the page's first address, and the tables that exist below the
/// root, each by its level (3 just below the root, 1 just above the pages)
/// and by the number of the span of addresses that it covers.
pub struct AddressSpace {
    pub mappings: Map<u64, (u64, u64)>,
    pub tables: Set<(int, int)>,
}

/// The table of level `level` on the way from the root to the page at
/// `page`: one of level 1 covers 2 MiB, one of level 2 covers 1 GiB, one of
/// level 3 covers 512 GiB.
pub open spec fn table_on_path(page: u64, level: int) -> (int, int) {
    if level == 3 {
        (3, page as int / 0x80_0000_0000)
    } else if level == 2 {
        (2, page as int / 0x4000_0000)
    } else {
        (1, page as int / 0x20_0000)
    }
}

/// How far the tables on one path could be created with a stock of frames.
pub struct Growth {
    pub tables: Set<(int, int)>,
    pub frames_left: nat,
    pub complete: bool,
}

/// Makes sure of one table: it is there, or a frame of the stock becomes
/// it, or the stock is empty and the path stays incomplete.
pub open spec fn grow_table(g: Growth, table: (int, int)) -> Growth {
    if !g.complete || g.tables.contains(table) {
        g
    } else if g.frames_left == 0 {
        Growth { complete: false, ..g }
    } else {
        Growth {
            tables: g.tables.insert(table),
            frames_left: (g.frames_left - 1) as nat,
            complete: true,
        }
    }
}

/// Creates the missing tables on the way to `page`, from the root down, as
/// far as `frames` frames reach.
pub open spec fn grow_path(tables: Set<(int, int)>, page: u64, frames: nat) -> Growth {
    grow_table(
        grow_table(
            grow_table(
                Growth { tables, frames_left: frames, complete: true },
                table_on_path(page, 3),
            ),
            table_on_path(page, 2),
        ),
        table_on_path(page, 1),
    )
}

/// What an attempt to map a page comes to.
pub struct MapOutcome {
    pub space: AddressSpace,
    pub result: Result<(), MapError>,
    pub frames_used: nat,
}

impl AddressSpace {
    /// The address that `addr` resolves to: the same offset in the frame
    /// that the page of `addr` is bound to, where that mapping is present.
    pub open spec fn translate(self, addr: u64) -> Option<u64> {
        let page = frame_floor(addr as int) as u64;
        if self.mappings.contains_key(page) && self.mappings[page].1 & PRESENT != 0 {
            Some((self.mappings[page].0 + addr % 4096) as u64)
        } else {
            None
        }
    }

    /// Every mapped page and every frame that one is bound to starts on a
    /// multiple of the frame size.
    pub open spec fn wf(self) -> bool {
        forall|p: u64| #[trigger]
            self.mappings.contains_key(p) ==> p % 4096 == 0 && self.mappings[p].0 % 4096 == 0
    }

    /// Maps `page` to `frame`, with `frames` frames in stock for the tables
    /// that are missing on the way. A page that is bound already stays as
    /// it is. Where the stock runs out, the tables created up to then stay.
    pub open spec fn map(self, page: u64, frame: u64, flags: u64, frames: nat) -> MapOutcome {
        if self.mappings.contains_key(page) {
            MapOutcome { space: self, result: Err(MapError::PageAlreadyMapped), frames_used: 0 }
        } else {
            let g = grow_path(self.tables, page, frames);
            if g.complete {
                MapOutcome {
                    space: AddressSpace {
                        mappings: self.mappings.insert(page, (frame, flags)),
                        tables: g.tables,
                    },
                    result: Ok(()),
                    frames_used: (frames - g.frames_left) as nat,
                }
            } else {
                MapOutcome {
                    space: AddressSpace { mappings: self.mappings, tables: g.tables },
                    result: Err(MapError::FrameAllocationFailed),
                    frames_used: (frames - g.frames_left) as nat,
                }
            }
        }
    }
}

impl Page {
    /// Every page starts on a multiple of the page size.
    pub open spec fn wf(&self) -> bool {
        self.base() % 4096 == 0
    }

    pub closed spec fn base(&self) -> u64 {
        self.base
    }

    /// The page that holds `addr`.
    pub fn containing_address(addr: u64) -> (p: Page)
        ensures
            p.wf(),
            p.base() as int == frame_floor(addr as int),
            p.base() <= addr < p.base() + 4096,
    {
        proof {
            lemma_frame_size_power_of_two();
        }
        Page { base: x86_64::align_down(addr, FRAME_SIZE) }
    }

    #[verifier::when_used_as_spec(base)]
    pub fn start_address(&self) -> (a: u64)
        ensures
            a == self.base(),
    {
        self.base
    }
}

impl PageFlags {
    /// The flags of a mapping that is present and writable.
    pub fn present_writable() -> (f: PageFlags)
        ensures
            f.bits == PRESENT | WRITABLE,
            f.bits == 3,
            f.bits & PRESENT != 0,
    {
        assert(1u64 | 2u64 == 3u64 && 3u64 & 1u64 != 0) by (bit_vector);
        PageFlags { bits: PRESENT | WRITABLE }
    }

    pub open spec fn is_present(&self) -> bool {
        self.bits & PRESENT != 0
    }

    #[verifier::when_used_as_spec(is_present)]
    pub fn present(&self) -> (b: bool)
        ensures
            b == self.is_present(),
    {
        self.bits & PRESENT != 0
    }
}

/// The page-table mapper: it owns one address space, resolves addresses in
/// it, and binds pages to frames and releases them.
pub trait PageMapper {
    /// What the address space holds. A mapper says here what it is; one
    /// that does not is taken to be some mapper that keeps the contracts
    /// below.
    open spec fn space(&self) -> AddressSpace {
        arbitrary()
    }

    /// The mapper is in a state in which its operations may be called.
    open spec fn inv(&self) -> bool {
        arbitrary()
    }

    /// Resolves `addr`, or `None` where its page has no present mapping.
    fn translate_addr(&self, addr: u64) -> (r: Option<u64>)
        requires
            self.inv(),
            self.space().wf(),
        ensures
            r == self.space().translate(addr),
    ;

    /// Binds `page` to `frame`. Frames for missing tables come from
    /// `allocator`, the table nearest the root first.
    fn map_to(
        &mut self,
        page: Page,
        frame: PhysicalFrame,
        flags: PageFlags,
        allocator: &mut BootInfoFrameAllocator,
    ) -> (r: Result<(), MapError>)
        requires
            old(self).inv(),
            old(self).space().wf(),
            old(allocator).wf(),
            page.wf(),
            frame.wf(),
        ensures
            final(self).inv(),
            final(self).space().wf(),
            final(allocator).wf(),
            final(allocator).regions() == old(allocator).regions(),
            ({
                let outcome = old(self).space().map(
                    page.base(),
                    frame.base(),
                    flags.bits,
                    old(allocator).remaining(),
                );
                &&& r == outcome.result
                &&& final(self).space() == outcome.space
                &&& final(allocator).allocated() == old(allocator).allocated()
                    + outcome.frames_used
            }),
    ;

    /// Releases `page` and returns the frame that it was bound to. The
    /// tables stay.
    fn unmap(&mut self, page: Page) -> (r: Result<PhysicalFrame, UnmapError>)
        requires
            old(self).inv(),
            old(self).space().wf(),
            page.wf(),
        ensures
            final(self).inv(),
            final(self).space().wf(),
            final(self).space().tables == old(self).space().tables,
            old(self).space().mappings.contains_key(page.base()) ==> {
                &&& r is Ok
                &&& r.unwrap().base() == old(self).space().mappings[page.base()].0
                &&& final(self).space().mappings == old(self).space().mappings.remove(
                    page.base(),
                )
            },
            !old(self).space().mappings.contains_key(page.base()) ==> {
                &&& r == Err::<PhysicalFrame, UnmapError>(UnmapError::PageNotMapped)
                &&& final(self).space() == old(self).space()
            },
    ;
}

} // verus!
