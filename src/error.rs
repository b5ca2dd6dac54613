use vstd::prelude::*;

verus! {

/// Why an instruction was refused. Every failure aborts the whole
/// instruction before any token movement is issued.
#[derive(Clone, Copy, Debug, PartialEq, Eq, Structural)]
pub enum AmmError {
    /// Wrong payload length, stale expiration, out-of-range enum or fee value.
    MalformedInput,
    /// Wrong owner or length of the record, wrong derived address, missing signer.
    AccountMismatch,
    /// The pool's state does not allow the instruction.
    InvalidState,
    /// The caller is not the record's authority.
    Unauthorized,
    /// A computed amount violates the caller's slippage bound.
    SlippageExceeded,
    /// A swap would move a zero amount.
    ZeroAmount,
    /// The reserves or the LP supply cannot price the request.
    InsufficientLiquidity,
    /// A computed amount does not fit in 64 bits.
    ArithmeticOverflow,
    /// The account list does not have the instruction's shape.
    NotEnoughAccountKeys,
}

} // verus!
