# nekor_aal

A verified architecture abstraction layer for x86 and x86-64: exact images of
the registers, descriptors, paging structures and task-state segment that a
kernel hands to the processor, with contracts, proved by Verus, that say what
every constructor, accessor and update does to the image. The task-state
segment and its descriptor are encoded to their little-endian byte images by
`to_bytes`, whose contracts fix the offset of every field.

Layout:

- `src/bits.rs` — bit-field arithmetic over 64-bit images and its laws.
- `src/arch/x86` — interrupt vectors, privilege levels, segment selectors and
  descriptors, gates, CPUID records, XSAVE components, FRED, and the
  model-specific register families (EFER, STAR/LSTAR/CSTAR/FMASK, SYSENTER,
  segment bases, XFD/XSS, FRED).
- `src/arch/x86_64` — control registers, general registers and RFLAGS,
  paging addresses, entries and tables, the task-state segment with its I/O
  permission bitmap, descriptor-table registers and the TSS descriptor.
- `src/agnostic` — partitioned integers, reserved storage, base-relative
  addresses, a two-slot swap chain.
- `src/cache`, `src/critical`, `src/feature` — cache-line storage,
  critical-section tokens, processor-feature signals and the named x86
  features.
- `app/` — the platform layer: `rdmsr`/`wrmsr`, `cli`/`sti`, descriptor-table
  loads, serialization and cache flushes, all issued on values the library
  builds, and the process-wide store of CPUID outputs.
- `tests/` — scenarios on concrete values.
