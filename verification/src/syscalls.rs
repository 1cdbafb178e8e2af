use vstd::prelude::*;

use crate::types::CellMeta;

verus! {

/// Return code: the syscall succeeded.
pub const SUCCESS: u8 = 0;
/// Return code: the requested index is out of the bounds of its source.
pub const INDEX_OUT_OF_BOUND: u8 = 1;
/// Return code: the requested slice is out of the bounds of the item.
pub const SLICE_OUT_OF_BOUND: u8 = 3;

/// Syscall number of `load_cell_data_as_code`.
pub const LOAD_CELL_DATA_AS_CODE_SYSCALL_NUMBER: u64 = 2091;
/// Syscall number of `load_cell_data`.
pub const LOAD_CELL_DATA_SYSCALL_NUMBER: u64 = 2092;

/// Bit pattern of the high byte of a source word that selects the script group.
pub const SOURCE_GROUP_FLAG: u64 = 0x0100_0000_0000_0000;
/// Mask of the high byte of a source word.
pub const SOURCE_GROUP_MASK: u64 = 0xFF00_0000_0000_0000;
/// Mask of the entry part of a source word.
pub const SOURCE_ENTRY_MASK: u64 = 0x00FF_FFFF_FFFF_FFFF;

/// Errors that abort the script (the VM's `ParseError` and `Unexpected`).
#[derive(Clone, Copy, Debug, PartialEq, Eq)]
pub enum VmError {
    ParseError,
    Unexpected,
}

/// Which list of a transaction a syscall refers to.
#[derive(Clone, Copy, Debug, PartialEq, Eq)]
pub enum SourceEntry {
    Input,
    Output,
    CellDep,
    HeaderDep,
}

/// A source: a list of the whole transaction, or of the current script group.
#[derive(Clone, Copy, Debug, PartialEq, Eq)]
pub enum Source {
    Transaction(SourceEntry),
    Group(SourceEntry),
}

/// The entry that a number denotes, if any.
pub open spec fn spec_source_entry(i: u64) -> Option<SourceEntry> {
    if i == 1 {
        Some(SourceEntry::Input)
    } else if i == 2 {
        Some(SourceEntry::Output)
    } else if i == 3 {
        Some(SourceEntry::CellDep)
    } else if i == 4 {
        Some(SourceEntry::HeaderDep)
    } else {
        None
    }
}

/// The number that denotes an entry.
pub open spec fn spec_entry_number(e: SourceEntry) -> u64 {
    match e {
        SourceEntry::Input => 1,
        SourceEntry::Output => 2,
        SourceEntry::CellDep => 3,
        SourceEntry::HeaderDep => 4,
    }
}

/// The source that a register word denotes: the low bytes select the entry,
/// the high byte selects the group when it equals the group flag.
pub open spec fn spec_parse_source(i: u64) -> Result<Source, VmError> {
    match spec_source_entry(i & SOURCE_ENTRY_MASK) {
        None => Err(VmError::ParseError),
        Some(e) => if i & SOURCE_GROUP_MASK == SOURCE_GROUP_FLAG {
            Ok(Source::Group(e))
        } else {
            Ok(Source::Transaction(e))
        },
    }
}

/// The word that denotes a source.
pub open spec fn spec_source_number(s: Source) -> u64 {
    match s {
        Source::Transaction(e) => spec_entry_number(e),
        Source::Group(e) => SOURCE_GROUP_FLAG | spec_entry_number(e),
    }
}

impl SourceEntry {
    /// Decodes an entry number; numbers other than 1 to 4 are a parse error.
    pub fn from_u64(i: u64) -> (r: Result<SourceEntry, VmError>)
        ensures
            r == (match spec_source_entry(i) {
                Some(e) => Ok(e),
                None => Err(VmError::ParseError),
            }),
    {
        if i == 1 {
            Ok(SourceEntry::Input)
        } else if i == 2 {
            Ok(SourceEntry::Output)
        } else if i == 3 {
            Ok(SourceEntry::CellDep)
        } else if i == 4 {
            Ok(SourceEntry::HeaderDep)
        } else {
            Err(VmError::ParseError)
        }
    }

    /// The number of this entry.
    pub fn to_u64(self) -> (r: u64)
        ensures
            r == spec_entry_number(self),
    {
        match self {
            SourceEntry::Input => 1,
            SourceEntry::Output => 2,
            SourceEntry::CellDep => 3,
            SourceEntry::HeaderDep => 4,
        }
    }
}

impl Source {
    /// Decodes the source word passed in a register.
    pub fn parse_from_u64(i: u64) -> (r: Result<Source, VmError>)
        ensures
            r == spec_parse_source(i),
    {
        let entry = match SourceEntry::from_u64(i & SOURCE_ENTRY_MASK) {
            Ok(e) => e,
            Err(e) => {
                return Err(e);
            },
        };
        if i & SOURCE_GROUP_MASK == SOURCE_GROUP_FLAG {
            Ok(Source::Group(entry))
        } else {
            Ok(Source::Transaction(entry))
        }
    }

    /// The word that denotes this source.
    pub fn to_u64(self) -> (r: u64)
        ensures
            r == spec_source_number(self),
    {
        match self {
            Source::Transaction(e) => e.to_u64(),
            Source::Group(e) => SOURCE_GROUP_FLAG | e.to_u64(),
        }
    }
}

/// The layout of a source word: its low seven bytes name the list (1 inputs,
/// 2 outputs, 3 cell deps, 4 header deps; any other value is a parse error),
/// and its high byte selects the script group exactly when it is 1.
pub proof fn lemma_source_word_layout(i: u64)
    ensures
        ({
            let low = i & 0x00FF_FFFF_FFFF_FFFFu64;
            let group = (i >> 56u64) == 1u64;
            let pick = |e: SourceEntry|
                if group {
                    Ok::<Source, VmError>(Source::Group(e))
                } else {
                    Ok::<Source, VmError>(Source::Transaction(e))
                };
            &&& low == 1 ==> spec_parse_source(i) == pick(SourceEntry::Input)
            &&& low == 2 ==> spec_parse_source(i) == pick(SourceEntry::Output)
            &&& low == 3 ==> spec_parse_source(i) == pick(SourceEntry::CellDep)
            &&& low == 4 ==> spec_parse_source(i) == pick(SourceEntry::HeaderDep)
            &&& (low == 0 || low > 4) ==> spec_parse_source(i) == Err::<Source, VmError>(
                VmError::ParseError,
            )
        }),
{
    assert((i & 0xFF00_0000_0000_0000u64 == 0x0100_0000_0000_0000u64) == ((i >> 56u64) == 1u64))
        by (bit_vector);
}

/// Decoding the word of a source gives the source back.
pub proof fn lemma_source_number_roundtrip(s: Source)
    ensures
        spec_parse_source(spec_source_number(s)) == Ok::<Source, VmError>(s),
{
    let n = spec_source_number(s);
    match s {
        Source::Transaction(e) => {
            let k = spec_entry_number(e);
            assert(1 <= k <= 4 ==> k & 0x00FF_FFFF_FFFF_FFFFu64 == k && k & 0xFF00_0000_0000_0000u64
                == 0) by (bit_vector);
        },
        Source::Group(e) => {
            let k = spec_entry_number(e);
            assert(1 <= k <= 4 ==> (0x0100_0000_0000_0000u64 | k) & 0x00FF_FFFF_FFFF_FFFFu64 == k
                && (0x0100_0000_0000_0000u64 | k) & 0xFF00_0000_0000_0000u64
                == 0x0100_0000_0000_0000u64) by (bit_vector);
        },
    }
}

} // verus!
