//! Physical memory: the firmware's memory map, the frame allocator that walks
//! it, the page mapper and the on-demand mapper of physical regions.

pub mod align;
pub mod regions;
pub mod frame_allocator;
pub mod paging;
pub mod mapping_table;
pub mod word_memory;
pub mod physical;
pub mod region_mapper;
pub mod heap;
pub mod bump;
