//! The instructions: payload decoding, account-list shapes, and for each
//! instruction the ordered host effects it asks for.
use vstd::bytes::{spec_u16_from_le_bytes, spec_u64_from_le_bytes, u16_from_le_bytes, u64_from_le_bytes};
use vstd::prelude::*;
use vstd::slice::slice_subrange;

use crate::bytes::{keys_equal, Pubkey};
use crate::error::AmmError;
use crate::state::ConfigSigner;

pub mod deposit;
pub mod initialize;
pub mod swap;
pub mod update_config;
pub mod withdraw;

verus! {

/// A token-program call that an instruction asks the host to make.
#[derive(Debug, PartialEq, Eq)]
pub enum TokenInstruction {
    Transfer { from: Pubkey, to: Pubkey, authority: Pubkey, amount: u64 },
    MintTo { mint: Pubkey, account: Pubkey, mint_authority: Pubkey, amount: u64 },
    Burn { mint: Pubkey, account: Pubkey, authority: Pubkey, amount: u64 },
}

/// One token-program call and, when the pool's record is the authority,
/// the record's signing seeds.
#[derive(Debug, PartialEq, Eq)]
pub struct TokenCall {
    pub instruction: TokenInstruction,
    pub signer: Option<ConfigSigner>,
}

/// The seed tuple from which a vault's address is derived under the
/// associated-token-account convention.
#[derive(Debug, PartialEq, Eq)]
pub struct VaultSeeds {
    pub wallet: Pubkey,
    pub token_program: Pubkey,
    pub mint: Pubkey,
}

/// A vault address as the host derived it, with the seeds it used.
#[derive(Debug, PartialEq, Eq)]
pub struct DerivedVault {
    pub seeds: VaultSeeds,
    pub address: Pubkey,
}

/// The derivation was made from the pool's record, the token program and
/// `mint`, and it gives the account that the caller supplied.
pub open spec fn vault_matches(
    d: DerivedVault,
    config: Pubkey,
    token_program: Pubkey,
    mint: Pubkey,
    supplied: Pubkey,
) -> bool {
    &&& d.seeds.wallet == config
    &&& d.seeds.token_program == token_program
    &&& d.seeds.mint == mint
    &&& d.address == supplied
}

pub fn check_vault(
    d: &DerivedVault,
    config: &Pubkey,
    token_program: &Pubkey,
    mint: &Pubkey,
    supplied: &Pubkey,
) -> (r: bool)
    ensures
        r == vault_matches(*d, *config, *token_program, *mint, *supplied),
{
    keys_equal(&d.seeds.wallet, config) && keys_equal(&d.seeds.token_program, token_program)
        && keys_equal(&d.seeds.mint, mint) && keys_equal(&d.address, supplied)
}

/// Balances read from the LP mint and the two vaults.
#[derive(Debug, PartialEq, Eq)]
pub struct PoolBalances {
    pub lp_supply: u64,
    pub x: u64,
    pub y: u64,
}

/// Little-endian `u64` at `b[off..off + 8]`.
pub open spec fn le_u64(b: Seq<u8>, off: int) -> u64 {
    spec_u64_from_le_bytes(b.subrange(off, off + 8))
}

/// Little-endian `i64` at `b[off..off + 8]`.
pub open spec fn le_i64(b: Seq<u8>, off: int) -> i64 {
    le_u64(b, off) as i64
}

/// Little-endian `u16` at `b[off..off + 2]`.
pub open spec fn le_u16(b: Seq<u8>, off: int) -> u16 {
    spec_u16_from_le_bytes(b.subrange(off, off + 2))
}

pub fn read_u64(data: &[u8], off: usize) -> (r: u64)
    requires
        off + 8 <= data@.len(),
    ensures
        r == le_u64(data@, off as int),
{
    let n: usize = data.len();
    assert(off + 8 <= n);
    u64_from_le_bytes(slice_subrange(data, off, off + 8))
}

pub fn read_i64(data: &[u8], off: usize) -> (r: i64)
    requires
        off + 8 <= data@.len(),
    ensures
        r == le_i64(data@, off as int),
{
    let v = read_u64(data, off);
    #[verifier::truncate]
    (v as i64)
}

pub fn read_u16(data: &[u8], off: usize) -> (r: u16)
    requires
        off + 2 <= data@.len(),
    ensures
        r == le_u16(data@, off as int),
{
    let n: usize = data.len();
    assert(off + 2 <= n);
    u16_from_le_bytes(slice_subrange(data, off, off + 2))
}

/// The instruction selected by the leading opcode byte.
#[derive(Clone, Copy, Debug, PartialEq, Eq, Structural)]
pub enum InstructionKind {
    Initialize,
    Deposit,
    Withdraw,
    Swap,
    UpdateConfig,
}

impl InstructionKind {
    pub open spec fn spec_opcode(self) -> u8 {
        match self {
            InstructionKind::Initialize => 0,
            InstructionKind::Deposit => 1,
            InstructionKind::Withdraw => 2,
            InstructionKind::Swap => 3,
            InstructionKind::UpdateConfig => 4,
        }
    }
}

/// Splits instruction data into its opcode and the payload after it. An
/// empty input or an unknown opcode is refused.
pub fn split_instruction(data: &[u8]) -> (r: Result<(InstructionKind, &[u8]), AmmError>)
    ensures
        r is Ok <==> data@.len() >= 1 && data@[0] <= 4,
        r is Err ==> r == Err::<(InstructionKind, &[u8]), AmmError>(AmmError::MalformedInput),
        r matches Ok((k, p)) ==> k.spec_opcode() == data@[0] && p@ == data@.subrange(
            1,
            data@.len() as int,
        ),
{
    if data.len() == 0 {
        return Err(AmmError::MalformedInput);
    }
    let kind = match data[0] {
        0 => InstructionKind::Initialize,
        1 => InstructionKind::Deposit,
        2 => InstructionKind::Withdraw,
        3 => InstructionKind::Swap,
        4 => InstructionKind::UpdateConfig,
        _ => return Err(AmmError::MalformedInput),
    };
    Ok((kind, slice_subrange(data, 1, data.len())))
}

} // verus!
