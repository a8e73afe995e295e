//! A page-table mapper that keeps its address space in ordinary memory: the
//! reference for what the mapper interface asks, and the mapper of a
//! machine that has no tables of its own yet.

use vstd::prelude::*;
use std::collections::{HashMap, HashSet};
use crate::memory::frame_allocator::BootInfoFrameAllocator;
use crate::memory::paging::{
    grow_path, grow_table, table_on_path, AddressSpace, Growth, MapError, Page, PageFlags,
    PageMapper, PageMapping, UnmapError, PRESENT,
};
use crate::memory::regions::{PhysicalFrame, FRAME_SIZE};

verus! {

broadcast use vstd::std_specs::hash::group_hash_axioms;

/// Bytes of address space that one table of level 1 covers.
pub const LEVEL1_SPAN: u64 = 0x20_0000;

/// Bytes of address space that one table of level 2 covers.
pub const LEVEL2_SPAN: u64 = 0x4000_0000;

/// Bytes of address space that one table of level 3 covers.
pub const LEVEL3_SPAN: u64 = 0x80_0000_0000;

/// The mappings of one address space and the tables that exist in it.
pub struct MappingTable {
    mappings: HashMap<u64, (u64, u64)>,
    level3: HashSet<u64>,
    level2: HashSet<u64>,
    level1: HashSet<u64>,
}

/// The tables of all three levels as one set.
pub open spec fn tables_of(level3: Set<u64>, level2: Set<u64>, level1: Set<u64>) -> Set<
    (int, int),
> {
    Set::new(
        |t: (int, int)|
            0 <= t.1 <= u64::MAX && {
                ||| t.0 == 3 && level3.contains(t.1 as u64)
                ||| t.0 == 2 && level2.contains(t.1 as u64)
                ||| t.0 == 1 && level1.contains(t.1 as u64)
            },
    )
}

impl MappingTable {
    /// An address space with no mapping and no table below the root.
    pub fn new() -> (t: MappingTable)
        ensures
            t.inv(),
            t.space().wf(),
            t.space().mappings == Map::<u64, (u64, u64)>::empty(),
            t.space().tables == Set::<(int, int)>::empty(),
    {
        let t = MappingTable {
            mappings: HashMap::new(),
            level3: HashSet::new(),
            level2: HashSet::new(),
            level1: HashSet::new(),
        };
        assert(t.space().tables =~= Set::<(int, int)>::empty());
        t
    }

    /// The mapping of `page`, if it has one.
    pub fn mapping_of(&self, page: Page) -> (r: Option<PageMapping>)
        requires
            self.space().wf(),
        ensures
            r is Some <==> self.space().mappings.contains_key(page.base()),
            r is Some ==> {
                &&& r.unwrap().page == page
                &&& r.unwrap().frame.base() == self.space().mappings[page.base()].0
                &&& r.unwrap().flags.bits == self.space().mappings[page.base()].1
            },
    {
        let key = page.start_address();
        match self.mappings.get(&key) {
            Some(entry) => {
                assert(self.space().mappings.contains_key(key));
                Some(
                    PageMapping {
                        page,
                        frame: PhysicalFrame::containing_address(entry.0),
                        flags: PageFlags { bits: entry.1 },
                    },
                )
            },
            None => None,
        }
    }
}

impl PageMapper for MappingTable {
    closed spec fn space(&self) -> AddressSpace {
        AddressSpace {
            mappings: self.mappings@,
            tables: tables_of(self.level3@, self.level2@, self.level1@),
        }
    }

    open spec fn inv(&self) -> bool {
        true
    }

    fn translate_addr(&self, addr: u64) -> (r: Option<u64>) {
        let page = addr - addr % FRAME_SIZE;
        match self.mappings.get(&page) {
            Some(entry) => {
                assert(self.space().mappings.contains_key(page));
                if entry.1 & PRESENT != 0 {
                    Some(entry.0 + addr % FRAME_SIZE)
                } else {
                    None
                }
            },
            None => None,
        }
    }

    fn map_to(
        &mut self,
        page: Page,
        frame: PhysicalFrame,
        flags: PageFlags,
        allocator: &mut BootInfoFrameAllocator,
    ) -> (r: Result<(), MapError>) {
        let key = page.start_address();
        if self.mappings.contains_key(&key) {
            return Err(MapError::PageAlreadyMapped);
        }
        let ghost g0 = Growth {
            tables: old(self).space().tables,
            frames_left: old(allocator).remaining(),
            complete: true,
        };
        let i3 = key / LEVEL3_SPAN;
        if !self.level3.contains(&i3) {
            match allocator.allocate_frame() {
                Some(_) => {
                    self.level3.insert(i3);
                },
                None => {
                    return Err(MapError::FrameAllocationFailed);
                },
            }
        }
        let ghost g1 = grow_table(g0, table_on_path(key, 3));
        assert(g1.complete && g1.frames_left == allocator.remaining());
        assert(self.space().tables =~= g1.tables);
        let i2 = key / LEVEL2_SPAN;
        if !self.level2.contains(&i2) {
            match allocator.allocate_frame() {
                Some(_) => {
                    self.level2.insert(i2);
                },
                None => {
                    assert(self.space().tables =~= grow_path(
                        old(self).space().tables,
                        key,
                        old(allocator).remaining(),
                    ).tables);
                    return Err(MapError::FrameAllocationFailed);
                },
            }
        }
        let ghost g2 = grow_table(g1, table_on_path(key, 2));
        assert(g2.complete && g2.frames_left == allocator.remaining());
        assert(self.space().tables =~= g2.tables);
        let i1 = key / LEVEL1_SPAN;
        if !self.level1.contains(&i1) {
            match allocator.allocate_frame() {
                Some(_) => {
                    self.level1.insert(i1);
                },
                None => {
                    assert(self.space().tables =~= grow_path(
                        old(self).space().tables,
                        key,
                        old(allocator).remaining(),
                    ).tables);
                    return Err(MapError::FrameAllocationFailed);
                },
            }
        }
        let ghost g3 = grow_table(g2, table_on_path(key, 1));
        assert(g3.complete && g3.frames_left == allocator.remaining());
        assert(self.space().tables =~= g3.tables);
        self.mappings.insert(key, (frame.start_address(), flags.bits));
        Ok(())
    }

    fn unmap(&mut self, page: Page) -> (r: Result<PhysicalFrame, UnmapError>) {
        let key = page.start_address();
        match self.mappings.remove(&key) {
            Some(entry) => {
                assert(old(self).space().mappings.contains_key(key));
                assert forall|p: u64| #[trigger]
                    self.space().mappings.contains_key(p) implies p % 4096 == 0
                    && self.space().mappings[p].0 % 4096 == 0 by {
                    assert(old(self).space().mappings.contains_key(p));
                }
                Ok(PhysicalFrame::containing_address(entry.0))
            },
            None => {
                assert(self.mappings@ =~= old(self).mappings@);
                Err(UnmapError::PageNotMapped)
            },
        }
    }
}

} // verus!
