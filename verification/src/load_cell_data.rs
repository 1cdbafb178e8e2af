use vstd::prelude::*;

use crate::syscalls::{
    spec_parse_source, Source, SourceEntry, VmError, INDEX_OUT_OF_BOUND,
    LOAD_CELL_DATA_AS_CODE_SYSCALL_NUMBER, LOAD_CELL_DATA_SYSCALL_NUMBER, SLICE_OUT_OF_BOUND,
};
use crate::types::CellMeta;

verus! {

/// The argument registers of the VM at the time of an `ecall`.
#[derive(Clone, Copy, Debug, PartialEq, Eq)]
pub struct SyscallRegisters {
    pub a0: u64,
    pub a1: u64,
    pub a2: u64,
    pub a3: u64,
    pub a4: u64,
    pub a5: u64,
    pub a6: u64,
    pub a7: u64,
}

/// What the VM has to do to complete a syscall.
#[derive(Clone, Copy, Debug, PartialEq, Eq)]
pub enum SyscallOutcome {
    /// The syscall number is not one of ours: `ecall` answers `false`.
    Unhandled,
    /// Write the return code to `A0`; the syscall is done.
    Finished(u8),
    /// Load the data of `cell`, map the bytes `content_start..content_end` of it
    /// as executable, frozen pages of `memory_size` bytes at `addr`, charge
    /// `cycles` (ten per byte of the cell's data; `None` when that count
    /// overflows `u64`, which aborts the syscall at the charge), then write
    /// `SUCCESS` to `A0`.
    LoadCode {
        cell: CellMeta,
        addr: u64,
        memory_size: u64,
        content_start: u64,
        content_end: u64,
        cycles: Option<u64>,
    },
    /// Load the data of `cell`, copy it out as [`store_data_plan`] says for
    /// that data, charge the plan's `cycles`, then write `SUCCESS` to `A0`.
    LoadData { cell: CellMeta },
}

/// How much of a buffer `store_data` copies out to the script.
#[derive(Clone, Copy, Debug, PartialEq, Eq)]
pub struct StoreDataPlan {
    /// First byte of the data that is copied.
    pub offset: u64,
    /// Bytes available from `offset` on; written back to the size pointer.
    pub full_size: u64,
    /// Bytes actually copied.
    pub real_size: u64,
    /// Cycles charged for the copy: ten per byte copied, `None` when that
    /// count overflows `u64`.
    pub cycles: Option<u64>,
}

/// The cell at `i` of a list, or `INDEX_OUT_OF_BOUND`.
pub open spec fn spec_cell_at(cells: Seq<CellMeta>, i: int) -> Result<CellMeta, u8> {
    if 0 <= i < cells.len() {
        Ok(cells[i])
    } else {
        Err(INDEX_OUT_OF_BOUND)
    }
}

/// The cell that a group index designates: the group list maps it to an index
/// of the transaction list.
pub open spec fn spec_group_cell_at(cells: Seq<CellMeta>, group: Seq<usize>, i: int) -> Result<
    CellMeta,
    u8,
> {
    if 0 <= i < group.len() {
        spec_cell_at(cells, group[i] as int)
    } else {
        Err(INDEX_OUT_OF_BOUND)
    }
}

/// Whether the requested code slice falls outside the cell data or the memory
/// window.
pub open spec fn slice_out_of_bound(cell: CellMeta, regs: SyscallRegisters) -> bool {
    ||| regs.a2 >= cell.data_bytes
    ||| regs.a2 + regs.a3 > cell.data_bytes
    ||| regs.a3 > regs.a1
}

/// The bounds check of `load_cell_data_as_code` stays within `u64`: the end of
/// the slice is computed only for an offset inside the data.
pub open spec fn code_load_within_limits(cell: CellMeta, regs: SyscallRegisters) -> bool {
    regs.a2 < cell.data_bytes ==> regs.a2 + regs.a3 <= u64::MAX
}

/// What `store_data` copies of `data_len` bytes, given the requested offset and
/// the capacity of the script's buffer.
pub open spec fn spec_store_data_plan(data_len: u64, requested_offset: u64, size: u64) -> StoreDataPlan {
    let offset = spec_min(requested_offset, data_len);
    let full_size = (data_len - offset) as u64;
    let real_size = spec_min(size, full_size);
    StoreDataPlan { offset, full_size, real_size, cycles: spec_data_cycles(real_size) }
}

/// The smaller of two numbers.
pub open spec fn spec_min(a: u64, b: u64) -> u64 {
    if a < b {
        a
    } else {
        b
    }
}

/// Ten cycles per byte of cell data, when that count fits in `u64`.
pub open spec fn spec_data_cycles(bytes: u64) -> Option<u64> {
    if bytes * 10 <= u64::MAX {
        Some((bytes * 10) as u64)
    } else {
        None
    }
}

/// `store_data` copies from the requested offset, clamped to the data, as
/// many bytes as remain there or as fit the buffer, whichever is fewer, and
/// charges ten cycles per byte copied.
pub proof fn lemma_store_data_copies_what_fits(data_len: u64, requested_offset: u64, size: u64)
    ensures
        ({
            let plan = spec_store_data_plan(data_len, requested_offset, size);
            &&& requested_offset <= data_len ==> plan.offset == requested_offset
            &&& requested_offset > data_len ==> plan.offset == data_len && plan.real_size == 0
            &&& plan.full_size == data_len - plan.offset
            &&& size >= plan.full_size ==> plan.real_size == plan.full_size
            &&& size < plan.full_size ==> plan.real_size == size
            &&& plan.real_size * 10 <= u64::MAX ==> plan.cycles == Some((plan.real_size * 10) as u64)
            &&& plan.real_size * 10 > u64::MAX ==> plan.cycles is None
        }),
{
}

/// Splits the data of a cell for `store_data`: the requested offset is
/// clamped to the data, `full_size` is what remains from it, at most `size`
/// bytes of that are copied, and ten cycles are charged per byte copied.
pub fn store_data_plan(data_len: u64, requested_offset: u64, size: u64) -> (r: StoreDataPlan)
    ensures
        r == spec_store_data_plan(data_len, requested_offset, size),
        r.offset <= data_len,
        r.offset + r.full_size == data_len,
        r.real_size <= size,
        r.real_size <= r.full_size,
        r.offset + r.real_size <= data_len,
{
    let offset = if requested_offset < data_len {
        requested_offset
    } else {
        data_len
    };
    let full_size = data_len - offset;
    let real_size = if size < full_size {
        size
    } else {
        full_size
    };
    StoreDataPlan { offset, full_size, real_size, cycles: data_cycles(real_size) }
}

/// The cycles charged for moving `bytes` bytes of cell data: ten per byte,
/// `None` when that count overflows `u64`.
pub fn data_cycles(bytes: u64) -> (r: Option<u64>)
    ensures
        r == spec_data_cycles(bytes),
{
    if bytes <= u64::MAX / 10 {
        Some(bytes * 10)
    } else {
        None
    }
}

/// The context of the `load_cell_data` syscalls: the resolved cells of the
/// transaction and the indices of the current script group.
pub struct LoadCellData<'a, DL> {
    data_loader: &'a DL,
    outputs: &'a [CellMeta],
    resolved_inputs: &'a [CellMeta],
    resolved_cell_deps: &'a [CellMeta],
    group_inputs: &'a [usize],
    group_outputs: &'a [usize],
}

impl<'a, DL> LoadCellData<'a, DL> {
    pub closed spec fn spec_data_loader(&self) -> &'a DL {
        self.data_loader
    }

    pub closed spec fn spec_outputs(&self) -> Seq<CellMeta> {
        self.outputs@
    }

    pub closed spec fn spec_resolved_inputs(&self) -> Seq<CellMeta> {
        self.resolved_inputs@
    }

    pub closed spec fn spec_resolved_cell_deps(&self) -> Seq<CellMeta> {
        self.resolved_cell_deps@
    }

    pub closed spec fn spec_group_inputs(&self) -> Seq<usize> {
        self.group_inputs@
    }

    pub closed spec fn spec_group_outputs(&self) -> Seq<usize> {
        self.group_outputs@
    }

    pub fn new(
        data_loader: &'a DL,
        outputs: &'a [CellMeta],
        resolved_inputs: &'a [CellMeta],
        resolved_cell_deps: &'a [CellMeta],
        group_inputs: &'a [usize],
        group_outputs: &'a [usize],
    ) -> (r: LoadCellData<'a, DL>)
        ensures
            r.spec_data_loader() == data_loader,
            r.spec_outputs() == outputs@,
            r.spec_resolved_inputs() == resolved_inputs@,
            r.spec_resolved_cell_deps() == resolved_cell_deps@,
            r.spec_group_inputs() == group_inputs@,
            r.spec_group_outputs() == group_outputs@,
    {
        LoadCellData {
            data_loader,
            outputs,
            resolved_inputs,
            resolved_cell_deps,
            group_inputs,
            group_outputs,
        }
    }

    /// The loader of cell data this context was built with.
    pub fn data_loader(&self) -> (r: &'a DL)
        ensures
            r == self.spec_data_loader(),
    {
        self.data_loader
    }

    /// The cell that `index` of `source` designates, or the return code.
    pub open spec fn spec_fetch_cell(&self, source: Source, index: int) -> Result<CellMeta, u8> {
        match source {
            Source::Transaction(SourceEntry::Input) => spec_cell_at(
                self.spec_resolved_inputs(),
                index,
            ),
            Source::Transaction(SourceEntry::Output) => spec_cell_at(self.spec_outputs(), index),
            Source::Transaction(SourceEntry::CellDep) => spec_cell_at(
                self.spec_resolved_cell_deps(),
                index,
            ),
            Source::Transaction(SourceEntry::HeaderDep) => Err(INDEX_OUT_OF_BOUND),
            Source::Group(SourceEntry::Input) => spec_group_cell_at(
                self.spec_resolved_inputs(),
                self.spec_group_inputs(),
                index,
            ),
            Source::Group(SourceEntry::Output) => spec_group_cell_at(
                self.spec_outputs(),
                self.spec_group_outputs(),
                index,
            ),
            Source::Group(SourceEntry::CellDep) => Err(INDEX_OUT_OF_BOUND),
            Source::Group(SourceEntry::HeaderDep) => Err(INDEX_OUT_OF_BOUND),
        }
    }

    /// Looks up a cell of the transaction or of the script group.
    pub fn fetch_cell(&self, source: Source, index: usize) -> (r: Result<&'a CellMeta, u8>)
        ensures
            match r {
                Ok(cell) => self.spec_fetch_cell(source, index as int) == Ok::<CellMeta, u8>(*cell),
                Err(code) => self.spec_fetch_cell(source, index as int) == Err::<CellMeta, u8>(code),
            },
    {
        match source {
            Source::Transaction(SourceEntry::Input) => {
                if index < self.resolved_inputs.len() {
                    Ok(&self.resolved_inputs[index])
                } else {
                    Err(INDEX_OUT_OF_BOUND)
                }
            },
            Source::Transaction(SourceEntry::Output) => {
                if index < self.outputs.len() {
                    Ok(&self.outputs[index])
                } else {
                    Err(INDEX_OUT_OF_BOUND)
                }
            },
            Source::Transaction(SourceEntry::CellDep) => {
                if index < self.resolved_cell_deps.len() {
                    Ok(&self.resolved_cell_deps[index])
                } else {
                    Err(INDEX_OUT_OF_BOUND)
                }
            },
            Source::Transaction(SourceEntry::HeaderDep) => Err(INDEX_OUT_OF_BOUND),
            Source::Group(SourceEntry::Input) => {
                if index < self.group_inputs.len() {
                    let actual_index = self.group_inputs[index];
                    if actual_index < self.resolved_inputs.len() {
                        Ok(&self.resolved_inputs[actual_index])
                    } else {
                        Err(INDEX_OUT_OF_BOUND)
                    }
                } else {
                    Err(INDEX_OUT_OF_BOUND)
                }
            },
            Source::Group(SourceEntry::Output) => {
                if index < self.group_outputs.len() {
                    let actual_index = self.group_outputs[index];
                    if actual_index < self.outputs.len() {
                        Ok(&self.outputs[actual_index])
                    } else {
                        Err(INDEX_OUT_OF_BOUND)
                    }
                } else {
                    Err(INDEX_OUT_OF_BOUND)
                }
            },
            Source::Group(SourceEntry::CellDep) => Err(INDEX_OUT_OF_BOUND),
            Source::Group(SourceEntry::HeaderDep) => Err(INDEX_OUT_OF_BOUND),
        }
    }

    /// What `load_cell_data_as_code` does with the given registers: `A4` is
    /// the index and `A5` the source of the cell, `A2`/`A3` the offset and
    /// size of the code slice, `A0`/`A1` the address and size of the memory
    /// window.
    pub open spec fn spec_load_data_as_code(&self, regs: SyscallRegisters) -> Result<
        SyscallOutcome,
        VmError,
    > {
        match spec_parse_source(regs.a5) {
            Err(e) => Err(e),
            Ok(source) => match self.spec_fetch_cell(source, (regs.a4 as usize) as int) {
                Err(code) => Ok(SyscallOutcome::Finished(code)),
                Ok(cell) => if slice_out_of_bound(cell, regs) {
                    Ok(SyscallOutcome::Finished(SLICE_OUT_OF_BOUND))
                } else {
                    Ok(
                        SyscallOutcome::LoadCode {
                            cell,
                            addr: regs.a0,
                            memory_size: regs.a1,
                            content_start: regs.a2,
                            content_end: (regs.a2 + regs.a3) as u64,
                            cycles: spec_data_cycles(cell.data_bytes),
                        },
                    )
                },
            },
        }
    }

    /// The registers of a `load_cell_data_as_code` call keep its arithmetic
    /// within `u64`.
    pub open spec fn load_data_as_code_defined(&self, regs: SyscallRegisters) -> bool {
        match spec_parse_source(regs.a5) {
            Ok(source) => match self.spec_fetch_cell(source, (regs.a4 as usize) as int) {
                Ok(cell) => code_load_within_limits(cell, regs),
                Err(_) => true,
            },
            Err(_) => true,
        }
    }

    /// Tells whether the arithmetic of `load_cell_data_as_code` stays within
    /// `u64` for these registers, so that callers can refuse the call first.
    pub fn load_data_as_code_in_range(&self, regs: &SyscallRegisters) -> (r: bool)
        ensures
            r == self.load_data_as_code_defined(*regs),
    {
        let source = match Source::parse_from_u64(regs.a5) {
            Ok(s) => s,
            Err(_) => {
                return true;
            },
        };
        let cell = match self.fetch_cell(source, regs.a4 as usize) {
            Ok(c) => c,
            Err(_) => {
                return true;
            },
        };
        let offset = regs.a2;
        let size = regs.a3;
        !(offset < cell.data_bytes && offset > u64::MAX - size)
    }

    /// Decides `load_cell_data_as_code`.
    pub fn load_data_as_code(&self, regs: &SyscallRegisters) -> (r: Result<SyscallOutcome, VmError>)
        requires
            self.load_data_as_code_defined(*regs),
        ensures
            r == self.spec_load_data_as_code(*regs),
    {
        let addr = regs.a0;
        let memory_size = regs.a1;
        let content_offset = regs.a2;
        let content_size = regs.a3;
        let index = regs.a4;
        let source = match Source::parse_from_u64(regs.a5) {
            Ok(s) => s,
            Err(e) => {
                return Err(e);
            },
        };
        let cell = match self.fetch_cell(source, index as usize) {
            Ok(c) => c,
            Err(code) => {
                return Ok(SyscallOutcome::Finished(code));
            },
        };
        if content_offset >= cell.data_bytes || (content_offset + content_size) > cell.data_bytes
            || content_size > memory_size {
            return Ok(SyscallOutcome::Finished(SLICE_OUT_OF_BOUND));
        }
        let content_end = content_offset + content_size;
        let cycles = data_cycles(cell.data_bytes);
        Ok(
            SyscallOutcome::LoadCode {
                cell: *cell,
                addr,
                memory_size,
                content_start: content_offset,
                content_end,
                cycles,
            },
        )
    }

    /// What `load_cell_data` does with the given registers: `A3` is the index
    /// and `A4` the source of the cell.
    pub open spec fn spec_load_data(&self, regs: SyscallRegisters) -> Result<
        SyscallOutcome,
        VmError,
    > {
        match spec_parse_source(regs.a4) {
            Err(e) => Err(e),
            Ok(source) => match self.spec_fetch_cell(source, (regs.a3 as usize) as int) {
                Err(code) => Ok(SyscallOutcome::Finished(code)),
                Ok(cell) => Ok(SyscallOutcome::LoadData { cell }),
            },
        }
    }

    /// Decides `load_cell_data`.
    pub fn load_data(&self, regs: &SyscallRegisters) -> (r: Result<SyscallOutcome, VmError>)
        ensures
            r == self.spec_load_data(*regs),
    {
        let index = regs.a3;
        let source = match Source::parse_from_u64(regs.a4) {
            Ok(s) => s,
            Err(e) => {
                return Err(e);
            },
        };
        match self.fetch_cell(source, index as usize) {
            Ok(cell) => Ok(SyscallOutcome::LoadData { cell: *cell }),
            Err(code) => Ok(SyscallOutcome::Finished(code)),
        }
    }

    /// What an `ecall` with the given registers does; `A7` holds the syscall
    /// number.
    pub open spec fn spec_ecall(&self, regs: SyscallRegisters) -> Result<SyscallOutcome, VmError> {
        if regs.a7 == LOAD_CELL_DATA_AS_CODE_SYSCALL_NUMBER {
            self.spec_load_data_as_code(regs)
        } else if regs.a7 == LOAD_CELL_DATA_SYSCALL_NUMBER {
            self.spec_load_data(regs)
        } else {
            Ok(SyscallOutcome::Unhandled)
        }
    }

    /// Dispatches an `ecall` to the syscall its number names.
    pub fn ecall(&self, regs: &SyscallRegisters) -> (r: Result<SyscallOutcome, VmError>)
        requires
            regs.a7 == LOAD_CELL_DATA_AS_CODE_SYSCALL_NUMBER ==> self.load_data_as_code_defined(
                *regs,
            ),
        ensures
            r == self.spec_ecall(*regs),
    {
        let code = regs.a7;
        if code == LOAD_CELL_DATA_AS_CODE_SYSCALL_NUMBER {
            return self.load_data_as_code(regs);
        } else if code == LOAD_CELL_DATA_SYSCALL_NUMBER {
            return self.load_data(regs);
        }
        Ok(SyscallOutcome::Unhandled)
    }

    /// A cell of the script group is the cell of the transaction list at the
    /// index that the group list holds for it.
    pub proof fn lemma_group_cell_is_transaction_cell(&self, index: int)
        ensures
            0 <= index < self.spec_group_inputs().len() ==> self.spec_fetch_cell(
                Source::Group(SourceEntry::Input),
                index,
            ) == self.spec_fetch_cell(
                Source::Transaction(SourceEntry::Input),
                self.spec_group_inputs()[index] as int,
            ),
            0 <= index < self.spec_group_outputs().len() ==> self.spec_fetch_cell(
                Source::Group(SourceEntry::Output),
                index,
            ) == self.spec_fetch_cell(
                Source::Transaction(SourceEntry::Output),
                self.spec_group_outputs()[index] as int,
            ),
    {
    }

    /// Header deps hold no cells, and a script group has no cell deps: every
    /// index of those sources is out of bound.
    pub proof fn lemma_cell_free_sources(&self, index: int)
        ensures
            self.spec_fetch_cell(Source::Transaction(SourceEntry::HeaderDep), index) == Err::<
                CellMeta,
                u8,
            >(INDEX_OUT_OF_BOUND),
            self.spec_fetch_cell(Source::Group(SourceEntry::HeaderDep), index) == Err::<
                CellMeta,
                u8,
            >(INDEX_OUT_OF_BOUND),
            self.spec_fetch_cell(Source::Group(SourceEntry::CellDep), index) == Err::<
                CellMeta,
                u8,
            >(INDEX_OUT_OF_BOUND),
    {
    }

    /// A lookup fails only with `INDEX_OUT_OF_BOUND`, and a cell it finds is
    /// one of the transaction's resolved inputs, outputs or cell deps.
    pub proof fn lemma_fetched_cell_belongs_to_transaction(&self, source: Source, index: int)
        ensures
            self.spec_fetch_cell(source, index) matches Err(code) ==> code == INDEX_OUT_OF_BOUND,
            self.spec_fetch_cell(source, index) matches Ok(cell) ==> {
                ||| self.spec_resolved_inputs().contains(cell)
                ||| self.spec_outputs().contains(cell)
                ||| self.spec_resolved_cell_deps().contains(cell)
            },
    {
        let inputs = self.spec_resolved_inputs();
        let outputs = self.spec_outputs();
        let deps = self.spec_resolved_cell_deps();
        match self.spec_fetch_cell(source, index) {
            Ok(cell) => {
                match source {
                    Source::Transaction(SourceEntry::Input) => {
                        assert(inputs[index] == cell);
                    },
                    Source::Transaction(SourceEntry::Output) => {
                        assert(outputs[index] == cell);
                    },
                    Source::Transaction(SourceEntry::CellDep) => {
                        assert(deps[index] == cell);
                    },
                    Source::Group(SourceEntry::Input) => {
                        assert(inputs[self.spec_group_inputs()[index] as int] == cell);
                    },
                    Source::Group(SourceEntry::Output) => {
                        assert(outputs[self.spec_group_outputs()[index] as int] == cell);
                    },
                    _ => {},
                }
            },
            Err(_) => {},
        }
    }

    /// When `load_cell_data_as_code` maps code, the slice lies inside the data
    /// of the cell it looked up and fits the memory window, and the cycles
    /// charged are ten per byte of that cell's data.
    pub proof fn lemma_code_slice_within_bounds(&self, regs: SyscallRegisters)
        requires
            self.load_data_as_code_defined(regs),
        ensures
            self.spec_load_data_as_code(regs) matches Ok(
                SyscallOutcome::LoadCode {
                    cell,
                    addr,
                    memory_size,
                    content_start,
                    content_end,
                    cycles,
                },
            ) ==> {
                &&& spec_parse_source(regs.a5) matches Ok(source)
                &&& self.spec_fetch_cell(source, (regs.a4 as usize) as int) == Ok::<CellMeta, u8>(
                    cell,
                )
                &&& addr == regs.a0
                &&& memory_size == regs.a1
                &&& content_start < cell.data_bytes
                &&& content_start <= content_end <= cell.data_bytes
                &&& content_end - content_start <= memory_size
                &&& cycles == spec_data_cycles(cell.data_bytes)
                &&& cell.data_bytes * 10 <= u64::MAX ==> cycles == Some(
                    (cell.data_bytes * 10) as u64,
                )
            },
    {
    }

    /// A lookup reads the lists of the transaction: index `i` of a transaction
    /// source is the `i`-th cell of that list, and index `i` of a group source
    /// is the cell of the transaction list at the position that the group list
    /// holds at `i`; any other index is out of bound.
    pub proof fn lemma_fetch_cell_reads_the_lists(&self, i: int)
        ensures
            ({
                let inputs = self.spec_resolved_inputs();
                let outputs = self.spec_outputs();
                let deps = self.spec_resolved_cell_deps();
                let group_inputs = self.spec_group_inputs();
                let group_outputs = self.spec_group_outputs();
                &&& self.spec_fetch_cell(Source::Transaction(SourceEntry::Input), i) == (if 0 <= i
                    < inputs.len() {
                    Ok::<CellMeta, u8>(inputs[i])
                } else {
                    Err(INDEX_OUT_OF_BOUND)
                })
                &&& self.spec_fetch_cell(Source::Transaction(SourceEntry::Output), i) == (if 0 <= i
                    < outputs.len() {
                    Ok::<CellMeta, u8>(outputs[i])
                } else {
                    Err(INDEX_OUT_OF_BOUND)
                })
                &&& self.spec_fetch_cell(Source::Transaction(SourceEntry::CellDep), i) == (if 0
                    <= i < deps.len() {
                    Ok::<CellMeta, u8>(deps[i])
                } else {
                    Err(INDEX_OUT_OF_BOUND)
                })
                &&& self.spec_fetch_cell(Source::Group(SourceEntry::Input), i) == (if 0 <= i
                    < group_inputs.len() && group_inputs[i] < inputs.len() {
                    Ok::<CellMeta, u8>(inputs[group_inputs[i] as int])
                } else {
                    Err(INDEX_OUT_OF_BOUND)
                })
                &&& self.spec_fetch_cell(Source::Group(SourceEntry::Output), i) == (if 0 <= i
                    < group_outputs.len() && group_outputs[i] < outputs.len() {
                    Ok::<CellMeta, u8>(outputs[group_outputs[i] as int])
                } else {
                    Err(INDEX_OUT_OF_BOUND)
                })
            }),
    {
    }

    /// `load_cell_data` loads exactly the cell that the lookup finds for the
    /// source in `A4` and the index in `A3`, and answers the lookup's return
    /// code when there is none; a source word that does not parse aborts. In
    /// particular, index `i` of the group's inputs loads the transaction input
    /// that the group list names at `i`.
    pub proof fn lemma_load_data_loads_the_fetched_cell(&self, regs: SyscallRegisters)
        ensures
            spec_parse_source(regs.a4) matches Err(e) ==> self.spec_load_data(regs) == Err::<
                SyscallOutcome,
                VmError,
            >(e),
            spec_parse_source(regs.a4) matches Ok(source) ==> match self.spec_fetch_cell(
                source,
                (regs.a3 as usize) as int,
            ) {
                Ok(cell) => self.spec_load_data(regs) == Ok::<SyscallOutcome, VmError>(
                    SyscallOutcome::LoadData { cell },
                ),
                Err(code) => self.spec_load_data(regs) == Ok::<SyscallOutcome, VmError>(
                    SyscallOutcome::Finished(code),
                ),
            },
            ({
                let i = (regs.a3 as usize) as int;
                let group = self.spec_group_inputs();
                (spec_parse_source(regs.a4) == Ok::<Source, VmError>(
                    Source::Group(SourceEntry::Input),
                ) && i < group.len() && group[i] < self.spec_resolved_inputs().len())
                    ==> self.spec_load_data(regs) == Ok::<SyscallOutcome, VmError>(
                    SyscallOutcome::LoadData {
                        cell: self.spec_resolved_inputs()[group[i] as int],
                    },
                )
            }),
    {
    }

    /// `load_cell_data_as_code` maps code exactly when the cell is found, the
    /// offset `A2` lies inside its data, the slice `A2..A2 + A3` ends inside
    /// it, and the slice length `A3` fits the memory size `A1`; then it maps
    /// that slice at `A0` and charges ten cycles per byte of the cell's data.
    /// A found cell whose slice does not fit answers `SLICE_OUT_OF_BOUND`.
    pub proof fn lemma_load_code_maps_a_fitting_slice(&self, regs: SyscallRegisters)
        ensures
            spec_parse_source(regs.a5) matches Err(e) ==> self.spec_load_data_as_code(regs)
                == Err::<SyscallOutcome, VmError>(e),
            spec_parse_source(regs.a5) matches Ok(source) ==> match self.spec_fetch_cell(
                source,
                (regs.a4 as usize) as int,
            ) {
                Err(code) => self.spec_load_data_as_code(regs) == Ok::<SyscallOutcome, VmError>(
                    SyscallOutcome::Finished(code),
                ),
                Ok(cell) => if regs.a2 < cell.data_bytes && regs.a2 + regs.a3 <= cell.data_bytes
                    && regs.a3 <= regs.a1 {
                    self.spec_load_data_as_code(regs) == Ok::<SyscallOutcome, VmError>(
                        SyscallOutcome::LoadCode {
                            cell,
                            addr: regs.a0,
                            memory_size: regs.a1,
                            content_start: regs.a2,
                            content_end: (regs.a2 + regs.a3) as u64,
                            cycles: if cell.data_bytes * 10 <= u64::MAX {
                                Some((cell.data_bytes * 10) as u64)
                            } else {
                                None
                            },
                        },
                    )
                } else {
                    self.spec_load_data_as_code(regs) == Ok::<SyscallOutcome, VmError>(
                        SyscallOutcome::Finished(SLICE_OUT_OF_BOUND),
                    )
                },
            },
    {
    }

    /// The two syscalls look up cells alike: given the same source word and
    /// index, `load_cell_data_as_code` maps code from the cell that
    /// `load_cell_data` loads, both abort on the same parse error, and both
    /// answer the same return code when no cell is found.
    pub proof fn lemma_code_and_data_use_the_same_cell(
        &self,
        code_regs: SyscallRegisters,
        data_regs: SyscallRegisters,
    )
        requires
            code_regs.a5 == data_regs.a4,
            code_regs.a4 == data_regs.a3,
        ensures
            self.spec_load_data_as_code(code_regs) matches Ok(SyscallOutcome::LoadCode { cell, .. })
                ==> self.spec_load_data(data_regs) == Ok::<SyscallOutcome, VmError>(
                SyscallOutcome::LoadData { cell },
            ),
            self.spec_load_data(data_regs) matches Ok(SyscallOutcome::LoadData { cell }) ==> {
                ||| self.spec_load_data_as_code(code_regs) matches Ok(
                    SyscallOutcome::LoadCode { cell: c, .. },
                ) && c == cell
                ||| self.spec_load_data_as_code(code_regs) == Ok::<SyscallOutcome, VmError>(
                    SyscallOutcome::Finished(SLICE_OUT_OF_BOUND),
                )
            },
            self.spec_load_data(data_regs) matches Ok(SyscallOutcome::Finished(code))
                ==> self.spec_load_data_as_code(code_regs) == Ok::<SyscallOutcome, VmError>(
                SyscallOutcome::Finished(code),
            ),
            self.spec_load_data(data_regs) matches Err(e) ==> self.spec_load_data_as_code(
                code_regs,
            ) == Err::<SyscallOutcome, VmError>(e),
    {
    }

    /// `ecall` with number 2091 runs `load_cell_data_as_code`, and with number
    /// 2092 runs `load_cell_data`.
    pub proof fn lemma_ecall_dispatches_by_number(&self, regs: SyscallRegisters)
        ensures
            regs.a7 == 2091 ==> self.spec_ecall(regs) == self.spec_load_data_as_code(regs),
            regs.a7 == 2092 ==> self.spec_ecall(regs) == self.spec_load_data(regs),
    {
    }

    /// `ecall` claims exactly the two `load_cell_data` syscall numbers.
    pub proof fn lemma_ecall_claims_its_numbers(&self, regs: SyscallRegisters)
        ensures
            (self.spec_ecall(regs) == Ok::<SyscallOutcome, VmError>(SyscallOutcome::Unhandled))
                <==> (regs.a7 != LOAD_CELL_DATA_AS_CODE_SYSCALL_NUMBER && regs.a7
                != LOAD_CELL_DATA_SYSCALL_NUMBER),
    {
    }
}

} // verus!
