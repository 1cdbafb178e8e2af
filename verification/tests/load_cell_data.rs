use ckb_store::load_cell_data::{
    data_cycles, store_data_plan, LoadCellData, StoreDataPlan, SyscallOutcome, SyscallRegisters,
};
use ckb_store::syscalls::{
    Source, SourceEntry, VmError, INDEX_OUT_OF_BOUND, LOAD_CELL_DATA_AS_CODE_SYSCALL_NUMBER,
    LOAD_CELL_DATA_SYSCALL_NUMBER, SLICE_OUT_OF_BOUND,
};
use ckb_store::types::{CellMeta, CellOutPoint};

fn cell(tag: u8, data_bytes: u64) -> CellMeta {
    CellMeta {
        out_point: CellOutPoint { tx_hash: [tag; 32], index: tag as u32 },
        block_info: None,
        cellbase: false,
        capacity: 100,
        data_bytes,
        data_hash: None,
    }
}

fn regs(a0: u64, a1: u64, a2: u64, a3: u64, a4: u64, a5: u64, a7: u64) -> SyscallRegisters {
    SyscallRegisters { a0, a1, a2, a3, a4, a5, a6: 0, a7 }
}

struct NoLoader;

#[test]
fn fetches_transaction_cells() {
    let outputs = [cell(1, 10)];
    let inputs = [cell(2, 20), cell(3, 30)];
    let deps = [cell(4, 40)];
    let ctx = LoadCellData::new(&NoLoader, &outputs, &inputs, &deps, &[], &[]);
    assert_eq!(ctx.fetch_cell(Source::Transaction(SourceEntry::Input), 1), Ok(&inputs[1]));
    assert_eq!(ctx.fetch_cell(Source::Transaction(SourceEntry::Output), 0), Ok(&outputs[0]));
    assert_eq!(ctx.fetch_cell(Source::Transaction(SourceEntry::CellDep), 0), Ok(&deps[0]));
    assert_eq!(
        ctx.fetch_cell(Source::Transaction(SourceEntry::Input), 2),
        Err(INDEX_OUT_OF_BOUND)
    );
    assert_eq!(
        ctx.fetch_cell(Source::Transaction(SourceEntry::HeaderDep), 0),
        Err(INDEX_OUT_OF_BOUND)
    );
}

#[test]
fn group_cells_follow_the_group_indices() {
    let outputs = [cell(1, 10), cell(5, 50)];
    let inputs = [cell(2, 20), cell(3, 30)];
    let group_inputs = [1usize, 7];
    let group_outputs = [1usize];
    let ctx = LoadCellData::new(&NoLoader, &outputs, &inputs, &[], &group_inputs, &group_outputs);
    assert_eq!(ctx.fetch_cell(Source::Group(SourceEntry::Input), 0), Ok(&inputs[1]));
    assert_eq!(
        ctx.fetch_cell(Source::Group(SourceEntry::Input), 0),
        ctx.fetch_cell(Source::Transaction(SourceEntry::Input), group_inputs[0])
    );
    assert_eq!(ctx.fetch_cell(Source::Group(SourceEntry::Input), 1), Err(INDEX_OUT_OF_BOUND));
    assert_eq!(ctx.fetch_cell(Source::Group(SourceEntry::Input), 2), Err(INDEX_OUT_OF_BOUND));
    assert_eq!(ctx.fetch_cell(Source::Group(SourceEntry::Output), 0), Ok(&outputs[1]));
    assert_eq!(ctx.fetch_cell(Source::Group(SourceEntry::CellDep), 0), Err(INDEX_OUT_OF_BOUND));
    assert_eq!(ctx.fetch_cell(Source::Group(SourceEntry::HeaderDep), 0), Err(INDEX_OUT_OF_BOUND));
}

#[test]
fn load_as_code_maps_the_requested_slice() {
    let deps = [cell(4, 100)];
    let ctx = LoadCellData::new(&NoLoader, &[], &[], &deps, &[], &[]);
    let r = ctx.load_data_as_code(&regs(0x1000, 64, 10, 50, 0, 3, 0));
    assert_eq!(
        r,
        Ok(SyscallOutcome::LoadCode {
            cell: deps[0],
            addr: 0x1000,
            memory_size: 64,
            content_start: 10,
            content_end: 60,
            cycles: Some(1000),
        })
    );
}

#[test]
fn load_as_code_rejects_slices_outside_the_data() {
    let deps = [cell(4, 100)];
    let ctx = LoadCellData::new(&NoLoader, &[], &[], &deps, &[], &[]);
    // offset at the end of the data
    assert_eq!(
        ctx.load_data_as_code(&regs(0, 64, 100, 0, 0, 3, 0)),
        Ok(SyscallOutcome::Finished(SLICE_OUT_OF_BOUND))
    );
    // slice runs past the data
    assert_eq!(
        ctx.load_data_as_code(&regs(0, 64, 90, 20, 0, 3, 0)),
        Ok(SyscallOutcome::Finished(SLICE_OUT_OF_BOUND))
    );
    // slice larger than the memory window
    assert_eq!(
        ctx.load_data_as_code(&regs(0, 8, 0, 9, 0, 3, 0)),
        Ok(SyscallOutcome::Finished(SLICE_OUT_OF_BOUND))
    );
    // exactly the whole data in a window of its size
    assert!(matches!(
        ctx.load_data_as_code(&regs(0, 100, 0, 100, 0, 3, 0)),
        Ok(SyscallOutcome::LoadCode { content_start: 0, content_end: 100, .. })
    ));
}

#[test]
fn load_as_code_reports_lookup_and_parse_failures() {
    let ctx = LoadCellData::new(&NoLoader, &[], &[], &[], &[], &[]);
    assert_eq!(
        ctx.load_data_as_code(&regs(0, 64, 0, 1, 0, 3, 0)),
        Ok(SyscallOutcome::Finished(INDEX_OUT_OF_BOUND))
    );
    assert_eq!(ctx.load_data_as_code(&regs(0, 64, 0, 1, 0, 9, 0)), Err(VmError::ParseError));
}

#[test]
fn load_data_looks_up_the_cell() {
    let inputs = [cell(2, 20)];
    let ctx = LoadCellData::new(&NoLoader, &[], &inputs, &[], &[0], &[]);
    assert_eq!(
        ctx.load_data(&regs(0, 0, 0, 0, 0x0100_0000_0000_0001, 0, 0)),
        Ok(SyscallOutcome::LoadData { cell: inputs[0] })
    );
    assert_eq!(
        ctx.load_data(&regs(0, 0, 0, 1, 1, 0, 0)),
        Ok(SyscallOutcome::Finished(INDEX_OUT_OF_BOUND))
    );
    assert_eq!(ctx.load_data(&regs(0, 0, 0, 0, 0, 0, 0)), Err(VmError::ParseError));
}

#[test]
fn ecall_dispatches_by_number() {
    let inputs = [cell(2, 20)];
    let ctx = LoadCellData::new(&NoLoader, &[], &inputs, &[], &[], &[]);
    assert_eq!(
        ctx.ecall(&regs(0, 0, 0, 0, 0, 0, 2051)),
        Ok(SyscallOutcome::Unhandled)
    );
    assert_eq!(
        ctx.ecall(&regs(0, 0, 0, 0, 1, 0, LOAD_CELL_DATA_SYSCALL_NUMBER)),
        Ok(SyscallOutcome::LoadData { cell: inputs[0] })
    );
    assert_eq!(
        ctx.ecall(&regs(0, 0, 0, 0, 0, 1, LOAD_CELL_DATA_SYSCALL_NUMBER)),
        Err(VmError::ParseError)
    );
    assert_eq!(
        ctx.ecall(&regs(0x2000, 20, 0, 20, 0, 1, LOAD_CELL_DATA_AS_CODE_SYSCALL_NUMBER)),
        Ok(SyscallOutcome::LoadCode {
            cell: inputs[0],
            addr: 0x2000,
            memory_size: 20,
            content_start: 0,
            content_end: 20,
            cycles: Some(200),
        })
    );
}

#[test]
fn store_data_clamps_offset_and_size() {
    assert_eq!(
        store_data_plan(100, 10, 50),
        StoreDataPlan { offset: 10, full_size: 90, real_size: 50, cycles: Some(500) }
    );
    assert_eq!(
        store_data_plan(100, 10, 500),
        StoreDataPlan { offset: 10, full_size: 90, real_size: 90, cycles: Some(900) }
    );
    assert_eq!(
        store_data_plan(100, 1000, 5),
        StoreDataPlan { offset: 100, full_size: 0, real_size: 0, cycles: Some(0) }
    );
    assert_eq!(
        store_data_plan(0, 0, 0),
        StoreDataPlan { offset: 0, full_size: 0, real_size: 0, cycles: Some(0) }
    );
    assert_eq!(
        store_data_plan(u64::MAX, 0, u64::MAX),
        StoreDataPlan { offset: 0, full_size: u64::MAX, real_size: u64::MAX, cycles: None }
    );
}

#[test]
fn cycles_are_ten_per_byte() {
    assert_eq!(data_cycles(0), Some(0));
    assert_eq!(data_cycles(37), Some(370));
    assert_eq!(data_cycles(u64::MAX / 10), Some(u64::MAX / 10 * 10));
    assert_eq!(data_cycles(u64::MAX / 10 + 1), None);
}

#[test]
fn data_loader_is_kept() {
    let loader = NoLoader;
    let ctx = LoadCellData::new(&loader, &[], &[], &[], &[], &[]);
    assert!(std::ptr::eq(ctx.data_loader(), &loader));
}

#[test]
fn code_load_arithmetic_range_is_checked() {
    let deps = [cell(4, 100), cell(5, u64::MAX / 5)];
    let ctx = LoadCellData::new(&NoLoader, &[], &[], &deps, &[], &[]);
    assert!(ctx.load_data_as_code_in_range(&regs(0, 64, 10, 50, 0, 3, 0)));
    // offset past the data: the sum is never formed
    assert!(ctx.load_data_as_code_in_range(&regs(0, 64, 100, u64::MAX, 0, 3, 0)));
    // offset inside the data and a size that overflows the sum
    assert!(!ctx.load_data_as_code_in_range(&regs(0, 64, 10, u64::MAX, 0, 3, 0)));
    // a cell too large for ten cycles per byte is still decided: the charge
    // comes after its data has been loaded and mapped
    assert!(ctx.load_data_as_code_in_range(&regs(0, 64, 0, 8, 1, 3, 0)));
    assert!(matches!(
        ctx.load_data_as_code(&regs(0, 64, 0, 8, 1, 3, 0)),
        Ok(SyscallOutcome::LoadCode { content_start: 0, content_end: 8, cycles: None, .. })
    ));
    // failed lookups and parses never reach the arithmetic
    assert!(ctx.load_data_as_code_in_range(&regs(0, 64, 10, u64::MAX, 9, 3, 0)));
    assert!(ctx.load_data_as_code_in_range(&regs(0, 64, 10, u64::MAX, 0, 0, 0)));
}
