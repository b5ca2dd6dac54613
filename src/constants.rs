use vstd::prelude::*;

verus! {

/// Largest fee in basis points (100%).
pub const MAX_FEE_BPS: u16 = 10000;

/// Basis points in one whole.
pub const BPS_DENOMINATOR: u64 = 10000;

/// Encoded size of the configuration record.
pub const CONFIG_LEN: usize = 108;

/// Decimals of the LP mint.
pub const LP_DECIMALS: u8 = 6;

/// First seed of the record's address: the ASCII bytes of `config`.
pub const CONFIG_SEED: [u8; 6] = [99, 111, 110, 102, 105, 103];

/// First seed of the LP mint's address: the ASCII bytes of `mint_lp`.
pub const MINT_LP_SEED: [u8; 7] = [109, 105, 110, 116, 95, 108, 112];

} // verus!
