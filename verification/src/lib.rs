//! Verified core of the CKB chain store reader and of the `load_cell_data`
//! syscalls of the CKB script VM.
//!
//! - [`types`]: the plain-value records (cell metadata, transaction info).
//! - [`syscalls`]: return codes, syscall numbers and the decoding of sources.
//! - [`load_cell_data`]: cell lookup and the decision procedure of the
//!   `load_cell_data` / `load_cell_data_as_code` syscalls.
//! - [`store`]: the `ChainStore` trait: which column and key each getter reads,
//!   and how the raw records combine.

pub mod types;
pub mod syscalls;
pub mod load_cell_data;
mod hash;
pub mod records;
pub mod store;
