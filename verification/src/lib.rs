//! DMA-BUF import cache for zero-copy video encoding.
//!
//! A compositor hands its frames over as Linux DMA-BUF file descriptors. To
//! encode them without a copy on the CPU, each buffer is imported as a Vulkan
//! image. [`DmaBufImporter`] caches those imports, so that the same underlying
//! buffer is imported only once and later frames reuse its image and memory.
//!
//! The cache is keyed by the buffer's *inode* (`st_ino` of the descriptor). The
//! inode identifies the underlying buffer object and is not recycled while the
//! buffer lives, whereas descriptor *numbers* are recycled for unrelated buffers
//! once closed. As defence in depth a hit must match the import parameters
//! ([`ImportParams`]) too; that catches inode reuse after a buffer is freed and
//! a new one allocated at the same inode. Mismatched entries are retired, and
//! freed after [`CACHE_TTL`], once any in-flight work using them has completed.
//! Entries that have not been touched in [`CACHE_TTL`] are evicted.
//!
//! Per-buffer inodes only exist from Linux 5.3 on, which [`DmaBufImporter::new`]
//! guards against up front: see [`kernel`].
//!
//! The importer performs no system or device call itself. A call of
//! [`DmaBufImporter::import_or_reuse`] hands out one [`Action`] at a time, takes
//! the [`Event`] that came of it, and ends with [`Action::Finish`]. What it
//! decides at each step is stated and proved over [`importer::ImporterView`];
//! what each step comes to, over the arguments of the calls, is in [`calls`], what
//! holds of whole calls in [`laws`], [`accounting`] and [`handles`], and what holds
//! throughout an importer's life in [`history`].
//!
//! [`DmaBufImporter`]: importer::DmaBufImporter
//! [`DmaBufImporter::new`]: importer::DmaBufImporter::new
//! [`DmaBufImporter::import_or_reuse`]: importer::DmaBufImporter::import_or_reuse
//! [`ImportParams`]: params::ImportParams
//! [`CACHE_TTL`]: cache::CACHE_TTL
//! [`Action`]: device::Action
//! [`Action::Finish`]: device::Action::Finish
//! [`Event`]: device::Event
pub mod accounting;
pub mod cache;
pub mod calls;
pub mod device;
pub mod error;
pub mod handles;
pub mod history;
pub mod importer;
pub mod kernel;
pub mod laws;
pub mod params;
pub mod raw_import;
pub mod text;
