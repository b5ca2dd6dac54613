//! Initialize: create the pool's record and its LP mint.
use vstd::prelude::*;

use crate::bytes::{is_zero_key, read_key, Pubkey};
use crate::constants::{LP_DECIMALS, MAX_FEE_BPS};
use crate::error::AmmError;
use crate::instructions::{le_u16, le_u64, read_u16, read_u64};
use crate::state::{config_of, encode_config, signer_for, AmmState, Config, ConfigSigner};

verus! {

/// Accounts, in order: initializer (signer, pays), LP mint, the pool's
/// record, the system program, the token program.
#[derive(Debug, PartialEq, Eq)]
pub struct InitializeAccounts {
    pub initializer: Pubkey,
    pub mint_lp: Pubkey,
    pub config: Pubkey,
}

impl InitializeAccounts {
    pub fn try_from(accounts: &[Pubkey]) -> (r: Result<InitializeAccounts, AmmError>)
        ensures
            r is Ok <==> accounts@.len() == 5,
            r is Err ==> r == Err::<InitializeAccounts, AmmError>(AmmError::NotEnoughAccountKeys),
            r matches Ok(a) ==> a == (InitializeAccounts {
                initializer: accounts@[0],
                mint_lp: accounts@[1],
                config: accounts@[2],
            }),
    {
        if accounts.len() != 5 {
            return Err(AmmError::NotEnoughAccountKeys);
        }
        Ok(InitializeAccounts { initializer: accounts[0], mint_lp: accounts[1], config: accounts[2] })
    }
}

/// Payload: seed, fee, the two mints, the record's bump, the LP mint's
/// bump, and optionally an authority (present when the payload is long
/// enough to hold it).
#[derive(Debug, PartialEq, Eq)]
pub struct InitializeInstructionData {
    pub seed: u64,
    pub fee: u16,
    pub mint_x: Pubkey,
    pub mint_y: Pubkey,
    pub config_bump: [u8; 1],
    pub lp_bump: [u8; 1],
    pub authority: Option<Pubkey>,
}

/// Payload length without the authority.
pub const INITIALIZE_DATA_LEN: usize = 76;

/// Payload length with the authority.
pub const INITIALIZE_DATA_LEN_WITH_AUTHORITY: usize = 108;

/// `d` is the decoding of the initialize payload `b`.
pub open spec fn initialize_data_decodes(b: Seq<u8>, d: InitializeInstructionData) -> bool {
    &&& b.len() == INITIALIZE_DATA_LEN || b.len() == INITIALIZE_DATA_LEN_WITH_AUTHORITY
    &&& d.seed == le_u64(b, 0)
    &&& d.fee == le_u16(b, 8)
    &&& d.mint_x@ == b.subrange(10, 42)
    &&& d.mint_y@ == b.subrange(42, 74)
    &&& d.config_bump[0] == b[74]
    &&& d.lp_bump[0] == b[75]
    &&& (b.len() == INITIALIZE_DATA_LEN ==> d.authority is None)
    &&& (b.len() == INITIALIZE_DATA_LEN_WITH_AUTHORITY ==> (d.authority matches Some(k) && k@
        == b.subrange(76, 108)))
}

impl InitializeInstructionData {
    pub fn try_from(data: &[u8]) -> (r: Result<InitializeInstructionData, AmmError>)
        ensures
            r is Ok <==> (data@.len() == INITIALIZE_DATA_LEN || data@.len()
                == INITIALIZE_DATA_LEN_WITH_AUTHORITY),
            r is Err ==> r == Err::<InitializeInstructionData, AmmError>(AmmError::MalformedInput),
            r matches Ok(d) ==> initialize_data_decodes(data@, d),
    {
        let n = data.len();
        if n != INITIALIZE_DATA_LEN && n != INITIALIZE_DATA_LEN_WITH_AUTHORITY {
            return Err(AmmError::MalformedInput);
        }
        let authority = if n == INITIALIZE_DATA_LEN_WITH_AUTHORITY {
            Some(read_key(data, 76))
        } else {
            None
        };
        Ok(InitializeInstructionData {
            seed: read_u64(data, 0),
            fee: read_u16(data, 8),
            mint_x: read_key(data, 10),
            mint_y: read_key(data, 42),
            config_bump: [data[74]],
            lp_bump: [data[75]],
            authority,
        })
    }
}

#[derive(Debug, PartialEq, Eq)]
pub struct Initialize {
    pub accounts: InitializeAccounts,
    pub instruction_data: InitializeInstructionData,
}

/// The seeds of the LP mint's address: `["mint_lp", record, lp_bump]`.
#[derive(Debug, PartialEq, Eq)]
pub struct MintLpSigner {
    pub config: Pubkey,
    pub lp_bump: [u8; 1],
}

/// What Initialize asks of the host, in order: create the record account
/// (signed by `config_signer`) and write `config_data` into it; create the
/// LP mint account (signed by `mint_lp_signer`) and initialize it with
/// `decimals` and `mint_authority`, without a freeze authority.
#[derive(Debug, PartialEq, Eq)]
pub struct InitializePlan {
    pub config_data: Vec<u8>,
    pub config_signer: ConfigSigner,
    pub mint_lp_signer: MintLpSigner,
    pub mint_authority: Pubkey,
    pub decimals: u8,
}

impl Initialize {
    pub const DISCRIMINATOR: u8 = 0;

    pub fn try_from(data: &[u8], accounts: &[Pubkey]) -> (r: Result<Initialize, AmmError>)
        ensures
            accounts@.len() != 5 ==> r == Err::<Initialize, AmmError>(AmmError::NotEnoughAccountKeys),
            accounts@.len() == 5 && !(data@.len() == INITIALIZE_DATA_LEN || data@.len()
                == INITIALIZE_DATA_LEN_WITH_AUTHORITY) ==> r == Err::<Initialize, AmmError>(
                AmmError::MalformedInput,
            ),
            accounts@.len() == 5 && (data@.len() == INITIALIZE_DATA_LEN || data@.len()
                == INITIALIZE_DATA_LEN_WITH_AUTHORITY) ==> (r matches Ok(i) && i.accounts
                == (InitializeAccounts {
                initializer: accounts@[0],
                mint_lp: accounts@[1],
                config: accounts@[2],
            }) && initialize_data_decodes(data@, i.instruction_data)),
    {
        let accounts = InitializeAccounts::try_from(accounts)?;
        let instruction_data = InitializeInstructionData::try_from(data)?;
        Ok(Initialize { accounts, instruction_data })
    }

    /// Builds the new record (state `Initialized`; an absent authority is
    /// stored as all zero bytes) and the plan that creates both accounts.
    /// A fee above 100% is refused before anything is created.
    pub fn process(&self) -> (r: Result<InitializePlan, AmmError>)
        ensures
            r is Ok <==> self.instruction_data.fee <= MAX_FEE_BPS,
            r is Err ==> r == Err::<InitializePlan, AmmError>(AmmError::MalformedInput),
            r matches Ok(p) ==> {
                let d = self.instruction_data;
                let c = config_of(p.config_data@);
                &&& encode_config(c) == p.config_data@
                &&& c.state == AmmState::Initialized
                &&& c.seed == d.seed
                &&& c.mint_x == d.mint_x
                &&& c.mint_y == d.mint_y
                &&& c.fee == d.fee
                &&& c.config_bump == d.config_bump[0]
                &&& (d.authority matches Some(k) ==> c.authority == k)
                &&& (d.authority is None ==> is_zero_key(c.authority))
                &&& p.config_signer == signer_for(c)
                &&& p.mint_lp_signer == (MintLpSigner {
                    config: self.accounts.config,
                    lp_bump: d.lp_bump,
                })
                &&& p.mint_authority == self.accounts.config
                &&& p.decimals == LP_DECIMALS
            },
    {
        let d = &self.instruction_data;
        let authority: Pubkey = match d.authority {
            Some(k) => k,
            None => [0u8; 32],
        };
        let mut config = Config::zeroed();
        config.set_inner(d.seed, authority, d.mint_x, d.mint_y, d.fee, d.config_bump)?;
        let config_data = config.to_bytes();
        proof {
            crate::state::lemma_config_round_trip(config@, config_of(config_data@));
        }
        Ok(InitializePlan {
            config_data,
            config_signer: config.signer(),
            mint_lp_signer: MintLpSigner { config: self.accounts.config, lp_bump: d.lp_bump },
            mint_authority: self.accounts.config,
            decimals: LP_DECIMALS,
        })
    }
}

} // verus!
