//! Swap: pay one token into its vault and receive the other from its vault.
use vstd::prelude::*;

use crate::bytes::Pubkey;
use crate::curve::{swap_amounts, swap_result, SwapResult};
use crate::error::AmmError;
use crate::instructions::{
    check_vault, le_i64, le_u64, read_i64, read_u64, vault_matches, DerivedVault, TokenCall,
    TokenInstruction,
};
use crate::state::{config_bytes_valid, config_of, signer_for, AmmState, Config, ConfigView};

verus! {

/// Accounts, in order: user (signer), the user's x and y token accounts,
/// vault x, vault y, the pool's record, the token program.
#[derive(Debug, PartialEq, Eq)]
pub struct SwapAccounts {
    pub user: Pubkey,
    pub user_x: Pubkey,
    pub user_y: Pubkey,
    pub vault_x: Pubkey,
    pub vault_y: Pubkey,
    pub config: Pubkey,
    pub token_program: Pubkey,
}

/// The accounts named by a list of seven keys.
pub open spec fn swap_accounts_of(k: Seq<Pubkey>) -> SwapAccounts {
    SwapAccounts {
        user: k[0],
        user_x: k[1],
        user_y: k[2],
        vault_x: k[3],
        vault_y: k[4],
        config: k[5],
        token_program: k[6],
    }
}

impl SwapAccounts {
    pub fn try_from(accounts: &[Pubkey]) -> (r: Result<SwapAccounts, AmmError>)
        ensures
            r is Ok <==> accounts@.len() == 7,
            r is Err ==> r == Err::<SwapAccounts, AmmError>(AmmError::NotEnoughAccountKeys),
            r matches Ok(a) ==> a == swap_accounts_of(accounts@),
    {
        if accounts.len() != 7 {
            return Err(AmmError::NotEnoughAccountKeys);
        }
        Ok(SwapAccounts {
            user: accounts[0],
            user_x: accounts[1],
            user_y: accounts[2],
            vault_x: accounts[3],
            vault_y: accounts[4],
            config: accounts[5],
            token_program: accounts[6],
        })
    }
}

/// Payload: which side is paid in (`true` for x), the amount paid in, the
/// least output accepted, and an expiration time.
#[derive(Debug, PartialEq, Eq)]
pub struct SwapInstructionData {
    pub is_x: bool,
    pub amount: u64,
    pub min: u64,
    pub expiration: i64,
}

/// Decoding of a swap payload at ledger time `now`: a side byte that is 0
/// or 1, then three little-endian 64-bit fields; neither amount zero, not
/// expired.
pub open spec fn swap_data_result(b: Seq<u8>, now: i64) -> Result<SwapInstructionData, AmmError> {
    if b.len() != 25 || b[0] > 1 || le_u64(b, 1) == 0 || le_u64(b, 9) == 0 || le_i64(b, 17) < now {
        Err(AmmError::MalformedInput)
    } else {
        Ok(
            SwapInstructionData {
                is_x: b[0] == 1,
                amount: le_u64(b, 1),
                min: le_u64(b, 9),
                expiration: le_i64(b, 17),
            },
        )
    }
}

impl SwapInstructionData {
    pub const LEN: usize = 25;

    pub fn try_from(data: &[u8], now: i64) -> (r: Result<SwapInstructionData, AmmError>)
        ensures
            r == swap_data_result(data@, now),
    {
        if data.len() != 25 || data[0] > 1 {
            return Err(AmmError::MalformedInput);
        }
        let is_x = data[0] == 1;
        let amount = read_u64(data, 1);
        let min = read_u64(data, 9);
        let expiration = read_i64(data, 17);
        if amount == 0 || min == 0 || expiration < now {
            return Err(AmmError::MalformedInput);
        }
        Ok(SwapInstructionData { is_x, amount, min, expiration })
    }
}

#[derive(Debug, PartialEq, Eq)]
pub struct Swap {
    pub accounts: SwapAccounts,
    pub instruction_data: SwapInstructionData,
}

/// The calls a swap asks for: the input from the user into its vault,
/// then the output from the other vault to the user under the record's
/// signature.
pub open spec fn swap_calls(a: SwapAccounts, is_x: bool, r: SwapResult, c: ConfigView) -> Seq<
    TokenCall,
> {
    if is_x {
        seq![
            TokenCall {
                instruction: TokenInstruction::Transfer {
                    from: a.user_x,
                    to: a.vault_x,
                    authority: a.user,
                    amount: r.deposit,
                },
                signer: None,
            },
            TokenCall {
                instruction: TokenInstruction::Transfer {
                    from: a.vault_y,
                    to: a.user_y,
                    authority: a.config,
                    amount: r.withdraw,
                },
                signer: Some(signer_for(c)),
            },
        ]
    } else {
        seq![
            TokenCall {
                instruction: TokenInstruction::Transfer {
                    from: a.user_y,
                    to: a.vault_y,
                    authority: a.user,
                    amount: r.deposit,
                },
                signer: None,
            },
            TokenCall {
                instruction: TokenInstruction::Transfer {
                    from: a.vault_x,
                    to: a.user_x,
                    authority: a.config,
                    amount: r.withdraw,
                },
                signer: Some(signer_for(c)),
            },
        ]
    }
}

/// Outcome of a swap against the record bytes `data` owned by `owner`,
/// the host's vault derivations and the vault balances `x`, `y`.
pub open spec fn swap_plan(
    s: Swap,
    program_id: Pubkey,
    owner: Pubkey,
    data: Seq<u8>,
    vx: DerivedVault,
    vy: DerivedVault,
    x: u64,
    y: u64,
) -> Result<Seq<TokenCall>, AmmError> {
    let a = s.accounts;
    let p = s.instruction_data;
    let c = config_of(data);
    if !(owner == program_id && config_bytes_valid(data)) {
        Err(AmmError::AccountMismatch)
    } else if c.state != AmmState::Initialized {
        Err(AmmError::InvalidState)
    } else if !vault_matches(vx, a.config, a.token_program, c.mint_x, a.vault_x) || !vault_matches(
        vy,
        a.config,
        a.token_program,
        c.mint_y,
        a.vault_y,
    ) {
        Err(AmmError::AccountMismatch)
    } else {
        let priced = if p.is_x {
            swap_result(x, y, c.fee, p.amount, p.min)
        } else {
            swap_result(y, x, c.fee, p.amount, p.min)
        };
        match priced {
            Err(e) => Err(e),
            Ok(r) => Ok(swap_calls(a, p.is_x, r, c)),
        }
    }
}

/// A pool whose record is not `Initialized` (for instance one that an
/// update has disabled) refuses every swap, whatever the payload, vaults
/// and balances.
pub proof fn lemma_swap_needs_initialized_pool(
    s: Swap,
    program_id: Pubkey,
    data: Seq<u8>,
    vx: DerivedVault,
    vy: DerivedVault,
    x: u64,
    y: u64,
)
    requires
        config_bytes_valid(data),
        config_of(data).state != AmmState::Initialized,
    ensures
        swap_plan(s, program_id, program_id, data, vx, vy, x, y) == Err::<Seq<TokenCall>, AmmError>(
            AmmError::InvalidState,
        ),
{
}

impl Swap {
    pub const DISCRIMINATOR: u8 = 3;

    pub fn try_from(data: &[u8], accounts: &[Pubkey], now: i64) -> (r: Result<Swap, AmmError>)
        ensures
            accounts@.len() != 7 ==> r == Err::<Swap, AmmError>(AmmError::NotEnoughAccountKeys),
            accounts@.len() == 7 ==> match swap_data_result(data@, now) {
                Err(e) => r == Err::<Swap, AmmError>(e),
                Ok(p) => r == Ok::<Swap, AmmError>(
                    Swap { accounts: swap_accounts_of(accounts@), instruction_data: p },
                ),
            },
    {
        let accounts = SwapAccounts::try_from(accounts)?;
        let instruction_data = SwapInstructionData::try_from(data, now)?;
        Ok(Swap { accounts, instruction_data })
    }

    /// Validates the record and the vaults, prices the trade and returns
    /// the token calls to make, in order.
    pub fn process(
        &self,
        program_id: &Pubkey,
        config_owner: &Pubkey,
        config_data: &[u8],
        vault_x: &DerivedVault,
        vault_y: &DerivedVault,
        vault_x_amount: u64,
        vault_y_amount: u64,
    ) -> (r: Result<Vec<TokenCall>, AmmError>)
        ensures
            r matches Ok(v) ==> swap_plan(
                *self,
                *program_id,
                *config_owner,
                config_data@,
                *vault_x,
                *vault_y,
                vault_x_amount,
                vault_y_amount,
            ) == Ok::<Seq<TokenCall>, AmmError>(v@),
            r matches Err(e) ==> swap_plan(
                *self,
                *program_id,
                *config_owner,
                config_data@,
                *vault_x,
                *vault_y,
                vault_x_amount,
                vault_y_amount,
            ) == Err::<Seq<TokenCall>, AmmError>(e),
    {
        let config = Config::load(config_owner, config_data, program_id)?;
        if config.state() != 1 {
            return Err(AmmError::InvalidState);
        }
        let a = &self.accounts;
        let mint_x = config.mint_x();
        let mint_y = config.mint_y();
        if !check_vault(vault_x, &a.config, &a.token_program, &mint_x, &a.vault_x) || !check_vault(
            vault_y,
            &a.config,
            &a.token_program,
            &mint_y,
            &a.vault_y,
        ) {
            return Err(AmmError::AccountMismatch);
        }
        let p = &self.instruction_data;
        let fee = config.fee();
        let traded = if p.is_x {
            swap_amounts(vault_x_amount, vault_y_amount, fee, p.amount, p.min)?
        } else {
            swap_amounts(vault_y_amount, vault_x_amount, fee, p.amount, p.min)?
        };
        let mut calls: Vec<TokenCall> = Vec::new();
        if p.is_x {
            calls.push(
                TokenCall {
                    instruction: TokenInstruction::Transfer {
                        from: a.user_x,
                        to: a.vault_x,
                        authority: a.user,
                        amount: traded.deposit,
                    },
                    signer: None,
                },
            );
            calls.push(
                TokenCall {
                    instruction: TokenInstruction::Transfer {
                        from: a.vault_y,
                        to: a.user_y,
                        authority: a.config,
                        amount: traded.withdraw,
                    },
                    signer: Some(config.signer()),
                },
            );
        } else {
            calls.push(
                TokenCall {
                    instruction: TokenInstruction::Transfer {
                        from: a.user_y,
                        to: a.vault_y,
                        authority: a.user,
                        amount: traded.deposit,
                    },
                    signer: None,
                },
            );
            calls.push(
                TokenCall {
                    instruction: TokenInstruction::Transfer {
                        from: a.vault_x,
                        to: a.user_x,
                        authority: a.config,
                        amount: traded.withdraw,
                    },
                    signer: Some(config.signer()),
                },
            );
        }
        assert(calls@ =~= swap_calls(*a, p.is_x, traded, config@));
        Ok(calls)
    }
}

} // verus!
