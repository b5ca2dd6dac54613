//! Withdraw: burn LP tokens and receive a share of both vaults.
use vstd::prelude::*;

use crate::bytes::{keys_equal, Pubkey};
use crate::curve::{withdraw_amounts, withdraw_result, XYAmounts};
use crate::error::AmmError;
use crate::instructions::{
    check_vault, le_i64, le_u64, read_i64, read_u64, vault_matches, DerivedVault, PoolBalances,
    TokenCall, TokenInstruction,
};
use crate::state::{config_bytes_valid, config_of, signer_for, AmmState, Config};

verus! {

/// Accounts, in order: user (signer), LP mint, vault x, vault y, the
/// user's x, y and LP token accounts, the pool's record, the token program.
#[derive(Debug, PartialEq, Eq)]
pub struct WithdrawAccounts {
    pub user: Pubkey,
    pub mint_lp: Pubkey,
    pub vault_x: Pubkey,
    pub vault_y: Pubkey,
    pub user_x_ata: Pubkey,
    pub user_y_ata: Pubkey,
    pub user_lp_ata: Pubkey,
    pub config: Pubkey,
    pub token_program: Pubkey,
}

/// The accounts named by a list of nine keys.
pub open spec fn withdraw_accounts_of(k: Seq<Pubkey>) -> WithdrawAccounts {
    WithdrawAccounts {
        user: k[0],
        mint_lp: k[1],
        vault_x: k[2],
        vault_y: k[3],
        user_x_ata: k[4],
        user_y_ata: k[5],
        user_lp_ata: k[6],
        config: k[7],
        token_program: k[8],
    }
}

impl WithdrawAccounts {
    pub fn try_from(accounts: &[Pubkey]) -> (r: Result<WithdrawAccounts, AmmError>)
        ensures
            r is Ok <==> accounts@.len() == 9,
            r is Err ==> r == Err::<WithdrawAccounts, AmmError>(AmmError::NotEnoughAccountKeys),
            r matches Ok(a) ==> a == withdraw_accounts_of(accounts@),
    {
        if accounts.len() != 9 {
            return Err(AmmError::NotEnoughAccountKeys);
        }
        Ok(WithdrawAccounts {
            user: accounts[0],
            mint_lp: accounts[1],
            vault_x: accounts[2],
            vault_y: accounts[3],
            user_x_ata: accounts[4],
            user_y_ata: accounts[5],
            user_lp_ata: accounts[6],
            config: accounts[7],
            token_program: accounts[8],
        })
    }
}

/// Payload: LP amount to burn, the least of x and of y to receive, and an
/// expiration time.
#[derive(Debug, PartialEq, Eq)]
pub struct WithdrawInstructionData {
    pub amount: u64,
    pub min_x: u64,
    pub min_y: u64,
    pub expiration: i64,
}

/// Decoding of a withdrawal payload at ledger time `now`: four little-endian
/// 64-bit fields, none of the amounts zero, not expired.
pub open spec fn withdraw_data_result(b: Seq<u8>, now: i64) -> Result<
    WithdrawInstructionData,
    AmmError,
> {
    if b.len() != 32 || le_u64(b, 0) == 0 || le_u64(b, 8) == 0 || le_u64(b, 16) == 0 || le_i64(
        b,
        24,
    ) < now {
        Err(AmmError::MalformedInput)
    } else {
        Ok(
            WithdrawInstructionData {
                amount: le_u64(b, 0),
                min_x: le_u64(b, 8),
                min_y: le_u64(b, 16),
                expiration: le_i64(b, 24),
            },
        )
    }
}

impl WithdrawInstructionData {
    pub const LEN: usize = 32;

    pub fn try_from(data: &[u8], now: i64) -> (r: Result<WithdrawInstructionData, AmmError>)
        ensures
            r == withdraw_data_result(data@, now),
    {
        if data.len() != 32 {
            return Err(AmmError::MalformedInput);
        }
        let amount = read_u64(data, 0);
        let min_x = read_u64(data, 8);
        let min_y = read_u64(data, 16);
        let expiration = read_i64(data, 24);
        if amount == 0 || min_x == 0 || min_y == 0 || expiration < now {
            return Err(AmmError::MalformedInput);
        }
        Ok(WithdrawInstructionData { amount, min_x, min_y, expiration })
    }
}

#[derive(Debug, PartialEq, Eq)]
pub struct Withdraw {
    pub accounts: WithdrawAccounts,
    pub instruction_data: WithdrawInstructionData,
}

/// The calls a withdrawal asks for: x and y from the vaults to the user
/// under the record's signature, then the LP tokens burned from the user.
pub open spec fn withdraw_calls(
    a: WithdrawAccounts,
    amount: u64,
    paid: XYAmounts,
    c: crate::state::ConfigView,
) -> Seq<TokenCall> {
    seq![
        TokenCall {
            instruction: TokenInstruction::Transfer {
                from: a.vault_x,
                to: a.user_x_ata,
                authority: a.config,
                amount: paid.x,
            },
            signer: Some(signer_for(c)),
        },
        TokenCall {
            instruction: TokenInstruction::Transfer {
                from: a.vault_y,
                to: a.user_y_ata,
                authority: a.config,
                amount: paid.y,
            },
            signer: Some(signer_for(c)),
        },
        TokenCall {
            instruction: TokenInstruction::Burn {
                mint: a.mint_lp,
                account: a.user_lp_ata,
                authority: a.user,
                amount,
            },
            signer: None,
        },
    ]
}

/// Outcome of a withdrawal against the record bytes `data` owned by `owner`,
/// the host's vault derivations and the current balances.
pub open spec fn withdraw_plan(
    d: Withdraw,
    program_id: Pubkey,
    owner: Pubkey,
    data: Seq<u8>,
    vx: DerivedVault,
    vy: DerivedVault,
    bal: PoolBalances,
) -> Result<Seq<TokenCall>, AmmError> {
    let a = d.accounts;
    let p = d.instruction_data;
    let c = config_of(data);
    if !(owner == program_id && config_bytes_valid(data)) {
        Err(AmmError::AccountMismatch)
    } else if c.state != AmmState::Initialized {
        Err(AmmError::InvalidState)
    } else if !vault_matches(vx, a.config, a.token_program, c.mint_x, a.vault_x) || !vault_matches(
        vy,
        a.config,
        a.token_program,
        c.mint_y,
        a.vault_y,
    ) {
        Err(AmmError::AccountMismatch)
    } else {
        match withdraw_result(bal.x, bal.y, bal.lp_supply, p.amount, p.min_x, p.min_y) {
            Err(e) => Err(e),
            Ok(paid) => Ok(withdraw_calls(a, p.amount, paid, c)),
        }
    }
}

impl Withdraw {
    pub const DISCRIMINATOR: u8 = 2;

    pub fn try_from(data: &[u8], accounts: &[Pubkey], now: i64) -> (r: Result<Withdraw, AmmError>)
        ensures
            accounts@.len() != 9 ==> r == Err::<Withdraw, AmmError>(AmmError::NotEnoughAccountKeys),
            accounts@.len() == 9 ==> match withdraw_data_result(data@, now) {
                Err(e) => r == Err::<Withdraw, AmmError>(e),
                Ok(p) => r == Ok::<Withdraw, AmmError>(
                    Withdraw { accounts: withdraw_accounts_of(accounts@), instruction_data: p },
                ),
            },
    {
        let accounts = WithdrawAccounts::try_from(accounts)?;
        let instruction_data = WithdrawInstructionData::try_from(data, now)?;
        Ok(Withdraw { accounts, instruction_data })
    }

    /// Validates the record and the vaults, prices the withdrawal and returns
    /// the token calls to make, in order.
    pub fn process(
        &self,
        program_id: &Pubkey,
        config_owner: &Pubkey,
        config_data: &[u8],
        vault_x: &DerivedVault,
        vault_y: &DerivedVault,
        balances: &PoolBalances,
    ) -> (r: Result<Vec<TokenCall>, AmmError>)
        ensures
            r matches Ok(v) ==> withdraw_plan(
                *self,
                *program_id,
                *config_owner,
                config_data@,
                *vault_x,
                *vault_y,
                *balances,
            ) == Ok::<Seq<TokenCall>, AmmError>(v@),
            r matches Err(e) ==> withdraw_plan(
                *self,
                *program_id,
                *config_owner,
                config_data@,
                *vault_x,
                *vault_y,
                *balances,
            ) == Err::<Seq<TokenCall>, AmmError>(e),
    {
        let config = Config::load(config_owner, config_data, program_id)?;
        if config.state() != 1 {
            return Err(AmmError::InvalidState);
        }
        let a = &self.accounts;
        let mint_x = config.mint_x();
        let mint_y = config.mint_y();
        if !check_vault(vault_x, &a.config, &a.token_program, &mint_x, &a.vault_x) || !check_vault(
            vault_y,
            &a.config,
            &a.token_program,
            &mint_y,
            &a.vault_y,
        ) {
            return Err(AmmError::AccountMismatch);
        }
        let p = &self.instruction_data;
        let paid = withdraw_amounts(
            balances.x,
            balances.y,
            balances.lp_supply,
            p.amount,
            p.min_x,
            p.min_y,
        )?;
        let mut calls: Vec<TokenCall> = Vec::new();
        calls.push(
            TokenCall {
                instruction: TokenInstruction::Transfer {
                    from: a.vault_x,
                    to: a.user_x_ata,
                    authority: a.config,
                    amount: paid.x,
                },
                signer: Some(config.signer()),
            },
        );
        calls.push(
            TokenCall {
                instruction: TokenInstruction::Transfer {
                    from: a.vault_y,
                    to: a.user_y_ata,
                    authority: a.config,
                    amount: paid.y,
                },
                signer: Some(config.signer()),
            },
        );
        calls.push(
            TokenCall {
                instruction: TokenInstruction::Burn {
                    mint: a.mint_lp,
                    account: a.user_lp_ata,
                    authority: a.user,
                    amount: p.amount,
                },
                signer: None,
            },
        );
        assert(calls@ =~= withdraw_calls(*a, p.amount, paid, config@));
        Ok(calls)
    }
}

} // verus!
