# theseus_kernel

Verified core logic of kernel components, written in Verus: the library's
functions carry `requires`/`ensures` contracts that Verus proves.

## Layout

- `src/` — the verified library.
  - `elf.rs`, `section_loader.rs`, `merged_loader.rs`, `crate_loader.rs`,
    `relocation.rs`, `relocation_plan.rs`: reading crate object files (through
    `xmas_elf`), placing their sections, and planning their relocations.
  - `elf_check.rs`: decides whether every part of an ELF file that the loader
    reads can be read safely, so that a file can be tested before loading.
  - `namespace.rs`, `namespace_dir.rs`, `symbol_map.rs`: crate namespaces, their
    crates and symbol maps (kept in `qp_trie` tries), and lookups along a chain
    of recursive namespaces.
  - `nano_core.rs`, `symbol_text.rs`: the sections and symbols of the running
    base image, from its symbol file or its ELF file.
  - `tls.rs`, `range_map.rs`: the thread-local storage image (offsets kept in a
    `rangemap` map).
  - `crate_copy.rs`, `dependency_graph.rs`, `address_lookup.rs`: copying crates,
    rewriting section dependencies, and finding the crate or section at an address.
  - `mlx_ethernet/`, `mlx5.rs`: the command interface, queues and start-up
    sequence of a ConnectX-5 ethernet device.
  - `mmu.rs`, `multicore.rs`, `bootloader.rs`, `crate_type.rs`, `naming.rs`,
    `demangle.rs`, `executable.rs`, `section.rs`, `text.rs`: page table entry
    flags, secondary core start-up, bootloader modules, crate and symbol names.
- `tests/` — tests that run the library with the outside crates linked.
- `app/` — the unverified side: file and device I/O, and the loops that drive
  the verified decisions.

Each call into an outside crate stands behind a small trusted wrapper whose
contract states what the crate's source shows; those wrappers are what the
proofs rest on.
