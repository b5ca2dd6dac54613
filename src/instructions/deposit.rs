//! Deposit: pay both tokens into the vaults and receive LP tokens.
use vstd::prelude::*;

use crate::bytes::{keys_equal, Pubkey};
use crate::curve::{deposit_amounts, deposit_result, XYAmounts};
use crate::error::AmmError;
use crate::instructions::{
    check_vault, le_i64, le_u64, read_i64, read_u64, vault_matches, DerivedVault, PoolBalances,
    TokenCall, TokenInstruction,
};
use crate::state::{config_bytes_valid, config_of, signer_for, AmmState, Config};

verus! {

/// Accounts, in order: user (signer), LP mint, vault x, vault y, the
/// user's x, y and LP token accounts, the pool's record, the token program.
#[derive(Debug, PartialEq, Eq)]
pub struct DepositAccounts {
    pub user: Pubkey,
    pub mint_lp: Pubkey,
    pub vault_x: Pubkey,
    pub vault_y: Pubkey,
    pub user_x_ata: Pubkey,
    pub user_y_ata: Pubkey,
    pub user_lp_ata: Pubkey,
    pub config: Pubkey,
    pub token_program: Pubkey,
}

/// The accounts named by a list of nine keys.
pub open spec fn deposit_accounts_of(k: Seq<Pubkey>) -> DepositAccounts {
    DepositAccounts {
        user: k[0],
        mint_lp: k[1],
        vault_x: k[2],
        vault_y: k[3],
        user_x_ata: k[4],
        user_y_ata: k[5],
        user_lp_ata: k[6],
        config: k[7],
        token_program: k[8],
    }
}

impl DepositAccounts {
    pub fn try_from(accounts: &[Pubkey]) -> (r: Result<DepositAccounts, AmmError>)
        ensures
            r is Ok <==> accounts@.len() == 9,
            r is Err ==> r == Err::<DepositAccounts, AmmError>(AmmError::NotEnoughAccountKeys),
            r matches Ok(a) ==> a == deposit_accounts_of(accounts@),
    {
        if accounts.len() != 9 {
            return Err(AmmError::NotEnoughAccountKeys);
        }
        Ok(DepositAccounts {
            user: accounts[0],
            mint_lp: accounts[1],
            vault_x: accounts[2],
            vault_y: accounts[3],
            user_x_ata: accounts[4],
            user_y_ata: accounts[5],
            user_lp_ata: accounts[6],
            config: accounts[7],
            token_program: accounts[8],
        })
    }
}

/// Payload: LP amount to receive, the most of x and of y to pay, and an
/// expiration time.
#[derive(Debug, PartialEq, Eq)]
pub struct DepositInstructionData {
    pub amount: u64,
    pub max_x: u64,
    pub max_y: u64,
    pub expiration: i64,
}

/// Decoding of a deposit payload at ledger time `now`: four little-endian
/// 64-bit fields, none of the amounts zero, not expired.
pub open spec fn deposit_data_result(b: Seq<u8>, now: i64) -> Result<
    DepositInstructionData,
    AmmError,
> {
    if b.len() != 32 || le_u64(b, 0) == 0 || le_u64(b, 8) == 0 || le_u64(b, 16) == 0 || le_i64(
        b,
        24,
    ) < now {
        Err(AmmError::MalformedInput)
    } else {
        Ok(
            DepositInstructionData {
                amount: le_u64(b, 0),
                max_x: le_u64(b, 8),
                max_y: le_u64(b, 16),
                expiration: le_i64(b, 24),
            },
        )
    }
}

impl DepositInstructionData {
    pub const LEN: usize = 32;

    pub fn try_from(data: &[u8], now: i64) -> (r: Result<DepositInstructionData, AmmError>)
        ensures
            r == deposit_data_result(data@, now),
    {
        if data.len() != 32 {
            return Err(AmmError::MalformedInput);
        }
        let amount = read_u64(data, 0);
        let max_x = read_u64(data, 8);
        let max_y = read_u64(data, 16);
        let expiration = read_i64(data, 24);
        if amount == 0 || max_x == 0 || max_y == 0 || expiration < now {
            return Err(AmmError::MalformedInput);
        }
        Ok(DepositInstructionData { amount, max_x, max_y, expiration })
    }
}

#[derive(Debug, PartialEq, Eq)]
pub struct Deposit {
    pub accounts: DepositAccounts,
    pub instruction_data: DepositInstructionData,
}

/// The calls a deposit asks for: x and y from the user into the vaults,
/// then the LP tokens minted to the user under the record's signature.
pub open spec fn deposit_calls(
    a: DepositAccounts,
    amount: u64,
    paid: XYAmounts,
    c: crate::state::ConfigView,
) -> Seq<TokenCall> {
    seq![
        TokenCall {
            instruction: TokenInstruction::Transfer {
                from: a.user_x_ata,
                to: a.vault_x,
                authority: a.user,
                amount: paid.x,
            },
            signer: None,
        },
        TokenCall {
            instruction: TokenInstruction::Transfer {
                from: a.user_y_ata,
                to: a.vault_y,
                authority: a.user,
                amount: paid.y,
            },
            signer: None,
        },
        TokenCall {
            instruction: TokenInstruction::MintTo {
                mint: a.mint_lp,
                account: a.user_lp_ata,
                mint_authority: a.config,
                amount,
            },
            signer: Some(signer_for(c)),
        },
    ]
}

/// Outcome of a deposit against the record bytes `data` owned by `owner`,
/// the host's vault derivations and the current balances.
pub open spec fn deposit_plan(
    d: Deposit,
    program_id: Pubkey,
    owner: Pubkey,
    data: Seq<u8>,
    vx: DerivedVault,
    vy: DerivedVault,
    bal: PoolBalances,
) -> Result<Seq<TokenCall>, AmmError> {
    let a = d.accounts;
    let p = d.instruction_data;
    let c = config_of(data);
    if !(owner == program_id && config_bytes_valid(data)) {
        Err(AmmError::AccountMismatch)
    } else if c.state != AmmState::Initialized {
        Err(AmmError::InvalidState)
    } else if !vault_matches(vx, a.config, a.token_program, c.mint_x, a.vault_x) || !vault_matches(
        vy,
        a.config,
        a.token_program,
        c.mint_y,
        a.vault_y,
    ) {
        Err(AmmError::AccountMismatch)
    } else {
        match deposit_result(bal.x, bal.y, bal.lp_supply, p.amount, p.max_x, p.max_y) {
            Err(e) => Err(e),
            Ok(paid) => Ok(deposit_calls(a, p.amount, paid, c)),
        }
    }
}

impl Deposit {
    pub const DISCRIMINATOR: u8 = 1;

    pub fn try_from(data: &[u8], accounts: &[Pubkey], now: i64) -> (r: Result<Deposit, AmmError>)
        ensures
            accounts@.len() != 9 ==> r == Err::<Deposit, AmmError>(AmmError::NotEnoughAccountKeys),
            accounts@.len() == 9 ==> match deposit_data_result(data@, now) {
                Err(e) => r == Err::<Deposit, AmmError>(e),
                Ok(p) => r == Ok::<Deposit, AmmError>(
                    Deposit { accounts: deposit_accounts_of(accounts@), instruction_data: p },
                ),
            },
    {
        let accounts = DepositAccounts::try_from(accounts)?;
        let instruction_data = DepositInstructionData::try_from(data, now)?;
        Ok(Deposit { accounts, instruction_data })
    }

    /// Validates the record and the vaults, prices the deposit and returns
    /// the token calls to make, in order.
    pub fn process(
        &self,
        program_id: &Pubkey,
        config_owner: &Pubkey,
        config_data: &[u8],
        vault_x: &DerivedVault,
        vault_y: &DerivedVault,
        balances: &PoolBalances,
    ) -> (r: Result<Vec<TokenCall>, AmmError>)
        ensures
            r matches Ok(v) ==> deposit_plan(
                *self,
                *program_id,
                *config_owner,
                config_data@,
                *vault_x,
                *vault_y,
                *balances,
            ) == Ok::<Seq<TokenCall>, AmmError>(v@),
            r matches Err(e) ==> deposit_plan(
                *self,
                *program_id,
                *config_owner,
                config_data@,
                *vault_x,
                *vault_y,
                *balances,
            ) == Err::<Seq<TokenCall>, AmmError>(e),
    {
        let config = Config::load(config_owner, config_data, program_id)?;
        if config.state() != 1 {
            return Err(AmmError::InvalidState);
        }
        let a = &self.accounts;
        let mint_x = config.mint_x();
        let mint_y = config.mint_y();
        if !check_vault(vault_x, &a.config, &a.token_program, &mint_x, &a.vault_x) || !check_vault(
            vault_y,
            &a.config,
            &a.token_program,
            &mint_y,
            &a.vault_y,
        ) {
            return Err(AmmError::AccountMismatch);
        }
        let p = &self.instruction_data;
        let paid = deposit_amounts(
            balances.x,
            balances.y,
            balances.lp_supply,
            p.amount,
            p.max_x,
            p.max_y,
        )?;
        let mut calls: Vec<TokenCall> = Vec::new();
        calls.push(
            TokenCall {
                instruction: TokenInstruction::Transfer {
                    from: a.user_x_ata,
                    to: a.vault_x,
                    authority: a.user,
                    amount: paid.x,
                },
                signer: None,
            },
        );
        calls.push(
            TokenCall {
                instruction: TokenInstruction::Transfer {
                    from: a.user_y_ata,
                    to: a.vault_y,
                    authority: a.user,
                    amount: paid.y,
                },
                signer: None,
            },
        );
        calls.push(
            TokenCall {
                instruction: TokenInstruction::MintTo {
                    mint: a.mint_lp,
                    account: a.user_lp_ata,
                    mint_authority: a.config,
                    amount: p.amount,
                },
                signer: Some(config.signer()),
            },
        );
        assert(calls@ =~= deposit_calls(*a, p.amount, paid, config@));
        Ok(calls)
    }
}

} // verus!
