//! x86-64 long-mode paging architecture.
//!
//! LA48 uses four paging-structure levels rooted at PML4; LA57 adds a PML5
//! root above the otherwise identical lower four levels.
//!
//! | Bits | Meaning |
//! |---|---|
//! | 56..48 | PML5 index under LA57, sign extension under LA48 |
//! | 47..39 | PML4 index |
//! | 38..30 | PDPT index |
//! | 29..21 | Page-directory index |
//! | 20..12 | Page-table index |
//! | 11..0 | 4 KiB page offset |
//!
//! These types describe architectural memory layout only: they do not
//! allocate memory, install CR3 or choose between LA48 and LA57.

pub mod address;

pub mod entry;

pub mod table;
