use vstd::prelude::*;
use crate::errors::ProtocolError;
use crate::keys::Pubkey;

verus! {

/// One instruction of the atomic bundle the current operation runs in, as the
/// host exposes it: the program it is addressed to, the accounts it names in
/// order, and its raw data (an eight-byte tag, then the arguments).
#[derive(Clone, Debug)]
pub struct Instruction {
    pub program_id: Pubkey,
    pub accounts: Vec<Pubkey>,
    pub data: Vec<u8>,
}

/// The two bundled instructions a flash loan consists of.
#[derive(Clone, Copy, Debug, PartialEq, Eq, Structural)]
pub enum InstructionKind {
    Borrow,
    Repay,
}

/// Position of the borrower's asset account among an instruction's accounts.
pub const BORROWER_ATA_INDEX: usize = 3;
/// Position of the pool's asset account among an instruction's accounts.
pub const PROTOCOL_ATA_INDEX: usize = 4;

/// The eight-byte tag that opens the data of an instruction of each kind.
pub open spec fn discriminator(kind: InstructionKind) -> Seq<u8> {
    match kind {
        InstructionKind::Borrow => seq![228u8, 253u8, 131u8, 202u8, 207u8, 116u8, 89u8, 18u8],
        InstructionKind::Repay => seq![234u8, 103u8, 67u8, 82u8, 208u8, 234u8, 219u8, 166u8],
    }
}

/// Bytes of data an instruction of each kind carries at least: the tag, and
/// for a borrow the amount after it.
pub open spec fn data_len(kind: InstructionKind) -> int {
    match kind {
        InstructionKind::Borrow => 16,
        InstructionKind::Repay => 8,
    }
}

/// The error reported when no instruction of `kind` stands where one is needed.
pub open spec fn missing_error(kind: InstructionKind) -> ProtocolError {
    match kind {
        InstructionKind::Borrow => ProtocolError::MissingBorrow,
        InstructionKind::Repay => ProtocolError::MissingRepay,
    }
}

/// `data` parses as an instruction of `kind`.
pub open spec fn parses_as(data: Seq<u8>, kind: InstructionKind) -> bool {
    data.len() >= data_len(kind) && data.subrange(0, 8) == discriminator(kind)
}

/// The unsigned little-endian value of the eight bytes of `s` from `at` on.
pub open spec fn le_u64(s: Seq<u8>, at: int) -> int {
    s[at] + 256 * (s[at + 1] + 256 * (s[at + 2] + 256 * (s[at + 3] + 256 * (s[at + 4] + 256 * (
    s[at + 5] + 256 * (s[at + 6] + 256 * s[at + 7]))))))
}

/// The amount a borrow instruction's data asks for.
pub open spec fn borrow_amount_of(data: Seq<u8>) -> int {
    le_u64(data, 8)
}

/// Outcome of checking that position `index` of the bundle `ixs` holds an
/// instruction of `kind` addressed to `program_id` that names `borrower_ata`
/// and `protocol_ata` as its borrower and pool asset accounts.
pub open spec fn instruction_check(
    ixs: Seq<Instruction>,
    index: int,
    program_id: Pubkey,
    kind: InstructionKind,
    borrower_ata: Pubkey,
    protocol_ata: Pubkey,
) -> Result<(), ProtocolError> {
    if index < 0 || index >= ixs.len() {
        Err(missing_error(kind))
    } else if ixs[index].program_id != program_id {
        Err(ProtocolError::InvalidBundleSource)
    } else if !parses_as(ixs[index].data@, kind) {
        Err(missing_error(kind))
    } else if ixs[index].accounts@.len() <= PROTOCOL_ATA_INDEX
        || ixs[index].accounts@[BORROWER_ATA_INDEX as int] != borrower_ata
        || ixs[index].accounts@[PROTOCOL_ATA_INDEX as int] != protocol_ata {
        Err(ProtocolError::InvalidAccount)
    } else {
        Ok(())
    }
}

fn discriminator_byte(kind: InstructionKind, i: usize) -> (r: u8)
    requires
        i < 8,
    ensures
        r == discriminator(kind)[i as int],
{
    let tag: [u8; 8] = match kind {
        InstructionKind::Borrow => [228, 253, 131, 202, 207, 116, 89, 18],
        InstructionKind::Repay => [234, 103, 67, 82, 208, 234, 219, 166],
    };
    assert(tag@ =~= discriminator(kind));
    tag[i]
}

/// Whether `data` opens with the tag of `kind` and is long enough for it.
pub fn has_tag(data: &Vec<u8>, kind: InstructionKind) -> (r: bool)
    ensures
        r == parses_as(data@, kind),
{
    let need: usize = match kind {
        InstructionKind::Borrow => 16,
        InstructionKind::Repay => 8,
    };
    if data.len() < need {
        return false;
    }
    let mut i: usize = 0;
    while i < 8
        invariant
            0 <= i <= 8,
            data@.len() >= 8,
            forall|j: int| 0 <= j < i ==> data@[j] == discriminator(kind)[j],
        decreases 8 - i,
    {
        if data[i] != discriminator_byte(kind, i) {
            assert(data@.subrange(0, 8)[i as int] != discriminator(kind)[i as int]);
            return false;
        }
        i += 1;
    }
    assert(data@.subrange(0, 8) =~= discriminator(kind));
    true
}

/// Reads eight bytes of `data` from `at` on as an unsigned little-endian value.
pub fn read_u64_le(data: &Vec<u8>, at: usize) -> (r: u64)
    requires
        at + 8 <= data@.len(),
    ensures
        r == le_u64(data@, at as int),
{
    let len: usize = data.len();
    assert(at + 7 < len);
    let mut acc: u64 = data[at + 7] as u64;
    acc = acc * 256 + data[at + 6] as u64;
    acc = acc * 256 + data[at + 5] as u64;
    acc = acc * 256 + data[at + 4] as u64;
    acc = acc * 256 + data[at + 3] as u64;
    acc = acc * 256 + data[at + 2] as u64;
    acc = acc * 256 + data[at + 1] as u64;
    acc = acc * 256 + data[at] as u64;
    acc
}

/// Checks, failing closed, that position `index` of the bundle holds an
/// instruction of `kind` for this program with the expected asset accounts.
pub fn verify_instruction_at(
    ixs: &Vec<Instruction>,
    index: usize,
    program_id: &Pubkey,
    kind: InstructionKind,
    borrower_ata: &Pubkey,
    protocol_ata: &Pubkey,
) -> (r: Result<(), ProtocolError>)
    ensures
        r == instruction_check(ixs@, index as int, *program_id, kind, *borrower_ata, *protocol_ata),
{
    if index >= ixs.len() {
        return Err(match kind {
            InstructionKind::Borrow => ProtocolError::MissingBorrow,
            InstructionKind::Repay => ProtocolError::MissingRepay,
        });
    }
    let ix = &ixs[index];
    if !ix.program_id.same(program_id) {
        return Err(ProtocolError::InvalidBundleSource);
    }
    if !has_tag(&ix.data, kind) {
        return Err(match kind {
            InstructionKind::Borrow => ProtocolError::MissingBorrow,
            InstructionKind::Repay => ProtocolError::MissingRepay,
        });
    }
    if ix.accounts.len() <= PROTOCOL_ATA_INDEX {
        return Err(ProtocolError::InvalidAccount);
    }
    if !ix.accounts[BORROWER_ATA_INDEX].same(borrower_ata) {
        return Err(ProtocolError::InvalidAccount);
    }
    if !ix.accounts[PROTOCOL_ATA_INDEX].same(protocol_ata) {
        return Err(ProtocolError::InvalidAccount);
    }
    Ok(())
}

} // verus!
