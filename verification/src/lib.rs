//! Verified core logic of kernel components: page table entry flags, the
//! loading, linking, copying and swapping of crate object files (their ELF
//! sections, relocations, symbol maps and section dependencies), the
//! thread-local storage image, the sections and symbols of the running base
//! image, the bootloader's modules, the start-up of secondary CPU cores, and
//! the command interface and queues of a ConnectX-5 ethernet device.

pub mod mmu;
pub mod range_map;
pub mod section;
pub mod tls;
pub mod text;
pub mod crate_type;
pub mod naming;
pub mod mlx_ethernet;
pub mod demangle;
pub mod elf;
pub mod section_loader;
pub mod merged_loader;
pub mod symbol_text;
pub mod mlx5;
pub mod relocation;
pub mod bootloader;
pub mod multicore;
pub mod crate_copy;
pub mod nano_core;
pub mod address_lookup;
pub mod symbol_map;
pub mod executable;
pub mod dependency_graph;
pub mod namespace;
pub mod namespace_dir;
pub mod elf_check;
pub mod crate_loader;
pub mod relocation_plan;
