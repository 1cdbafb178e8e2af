# ckb_store

Verified core of two pieces of the CKB node:

- **Chain store reads** (`src/store.rs`): the `ChainStore` trait says, for every
  getter, which column and key of the key-value database it reads and how the
  stored records combine (a block is read when its header is, a cell meta needs
  the info of its transaction, block numbers are little-endian, cell keys are the
  transaction hash followed by the big-endian output index). Stored records are
  decoded with the molecule readers of `ckb-types` (`src/records.rs`); the getters
  say which decoder's result they hand out, and the chaining getters
  (`get_transaction`, `get_cell_output`, `get_cell_meta`) say how the transaction
  info, the block body and the selected item are combined. `MemoryStore` is an
  in-memory implementation.
- **`load_cell_data` syscalls** (`src/syscalls.rs`, `src/load_cell_data.rs`): the
  decoding of source words, the lookup of cells in a transaction or script group,
  and the decision of what a `load_cell_data` / `load_cell_data_as_code` call does
  with the VM (which slice to map, how many cycles to charge, which return code
  to write).

`app/` carries those decisions out on a `ckb-vm` machine and holds the epoch
calculation, which belongs to `ckb-chain-spec`.
