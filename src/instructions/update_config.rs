//! UpdateConfig: the record's authority changes one field of the record.
use vstd::prelude::*;
use vstd::slice::slice_to_vec;

use crate::bytes::{is_zero_key, keys_equal, read_key, Pubkey};
use crate::constants::MAX_FEE_BPS;
use crate::error::AmmError;
use crate::instructions::{le_u16, read_u16};
use crate::state::{config_bytes_valid, config_of, encode_config, AmmState, Config, ConfigView};

verus! {

/// Accounts, in order: the record's authority (signer), the pool's record.
#[derive(Debug, PartialEq, Eq)]
pub struct UpdateConfigAccounts {
    pub authority: Pubkey,
    pub config: Pubkey,
}

impl UpdateConfigAccounts {
    /// Checks the account list, that the record is the program's and has
    /// an authority equal to the first account, and that this account
    /// signed.
    pub fn try_from(
        accounts: &[Pubkey],
        authority_is_signer: bool,
        config_owner: &Pubkey,
        config_data: &[u8],
        program_id: &Pubkey,
    ) -> (r: Result<UpdateConfigAccounts, AmmError>)
        ensures
            r == update_accounts_result(
                accounts@,
                authority_is_signer,
                *config_owner,
                config_data@,
                *program_id,
            ),
    {
        if accounts.len() != 2 {
            return Err(AmmError::NotEnoughAccountKeys);
        }
        let config = Config::load(config_owner, config_data, program_id)?;
        match config.has_authority() {
            Some(k) => {
                if !keys_equal(&k, &accounts[0]) {
                    return Err(AmmError::Unauthorized);
                }
            },
            None => return Err(AmmError::Unauthorized),
        }
        if !authority_is_signer {
            return Err(AmmError::AccountMismatch);
        }
        Ok(UpdateConfigAccounts { authority: accounts[0], config: accounts[1] })
    }
}

pub open spec fn update_accounts_result(
    accounts: Seq<Pubkey>,
    authority_is_signer: bool,
    owner: Pubkey,
    data: Seq<u8>,
    program_id: Pubkey,
) -> Result<UpdateConfigAccounts, AmmError> {
    if accounts.len() != 2 {
        Err(AmmError::NotEnoughAccountKeys)
    } else if !(owner == program_id && config_bytes_valid(data)) {
        Err(AmmError::AccountMismatch)
    } else if is_zero_key(config_of(data).authority) || config_of(data).authority != accounts[0] {
        Err(AmmError::Unauthorized)
    } else if !authority_is_signer {
        Err(AmmError::AccountMismatch)
    } else {
        Ok(UpdateConfigAccounts { authority: accounts[0], config: accounts[1] })
    }
}

/// Payload of an authority change: the new authority (all zero bytes make
/// the record immutable).
#[derive(Debug, PartialEq, Eq)]
pub struct UpdateConfigAuthorityInstructionData {
    pub authority: Pubkey,
}

impl UpdateConfigAuthorityInstructionData {
    pub fn try_from(data: &[u8]) -> (r: Result<UpdateConfigAuthorityInstructionData, AmmError>)
        ensures
            r is Ok <==> data@.len() == 32,
            r is Err ==> r == Err::<UpdateConfigAuthorityInstructionData, AmmError>(
                AmmError::MalformedInput,
            ),
            r matches Ok(d) ==> d.authority@ == data@,
    {
        if data.len() != 32 {
            return Err(AmmError::MalformedInput);
        }
        let authority = read_key(data, 0);
        assert(data@.subrange(0, 32) =~= data@);
        Ok(UpdateConfigAuthorityInstructionData { authority })
    }
}

/// Payload of a fee change: the new fee in basis points, little-endian.
#[derive(Debug, PartialEq, Eq)]
pub struct UpdateConfigFeeInstructionData {
    pub fee: u16,
}

impl UpdateConfigFeeInstructionData {
    pub fn try_from(data: &[u8]) -> (r: Result<UpdateConfigFeeInstructionData, AmmError>)
        ensures
            r is Ok <==> data@.len() == 2,
            r is Err ==> r == Err::<UpdateConfigFeeInstructionData, AmmError>(
                AmmError::MalformedInput,
            ),
            r matches Ok(d) ==> d.fee == le_u16(data@, 0),
    {
        if data.len() != 2 {
            return Err(AmmError::MalformedInput);
        }
        Ok(UpdateConfigFeeInstructionData { fee: read_u16(data, 0) })
    }
}

/// Payload of a state change: the new state's byte.
#[derive(Debug, PartialEq, Eq)]
pub struct UpdateConfigStatusInstructionData {
    pub status: u8,
}

impl UpdateConfigStatusInstructionData {
    pub fn try_from(data: &[u8]) -> (r: Result<UpdateConfigStatusInstructionData, AmmError>)
        ensures
            r is Ok <==> data@.len() == 1,
            r is Err ==> r == Err::<UpdateConfigStatusInstructionData, AmmError>(
                AmmError::MalformedInput,
            ),
            r matches Ok(d) ==> d.status == data@[0],
    {
        if data.len() != 1 {
            return Err(AmmError::MalformedInput);
        }
        Ok(UpdateConfigStatusInstructionData { status: data[0] })
    }
}

/// Whether the update payload `p` may be applied to the record `c`. The
/// payload's length picks the field: 1 byte a state, 2 a fee, 32 an
/// authority. A state may not be set to `Uninitialized`, nor set at all on
/// a record that Initialize has not written; a fee may not exceed 100%.
pub open spec fn update_outcome(p: Seq<u8>, c: ConfigView) -> Result<(), AmmError> {
    if p.len() == 1 {
        if p[0] == 0 || p[0] > 3 {
            Err(AmmError::MalformedInput)
        } else if c.state == AmmState::Uninitialized {
            Err(AmmError::InvalidState)
        } else {
            Ok(())
        }
    } else if p.len() == 2 {
        if le_u16(p, 0) > MAX_FEE_BPS {
            Err(AmmError::MalformedInput)
        } else {
            Ok(())
        }
    } else if p.len() == 32 {
        Ok(())
    } else {
        Err(AmmError::MalformedInput)
    }
}

/// `c2` is `c` with the update `p` applied: only the chosen field changes.
pub open spec fn update_applied(p: Seq<u8>, c: ConfigView, c2: ConfigView) -> bool {
    if p.len() == 1 {
        c2 == ConfigView { state: c2.state, ..c } && c2.state.spec_to_u8() == p[0]
    } else if p.len() == 2 {
        c2 == ConfigView { fee: le_u16(p, 0), ..c }
    } else {
        c2 == ConfigView { authority: c2.authority, ..c } && c2.authority@ == p
    }
}

/// Outcome of an update against the record bytes `data` owned by `owner`:
/// the record's new view.
pub open spec fn update_config_result(
    p: Seq<u8>,
    owner: Pubkey,
    data: Seq<u8>,
    program_id: Pubkey,
) -> Result<(), AmmError> {
    if p.len() != 1 && p.len() != 2 && p.len() != 32 {
        Err(AmmError::MalformedInput)
    } else if !(owner == program_id && config_bytes_valid(data)) {
        Err(AmmError::AccountMismatch)
    } else {
        update_outcome(p, config_of(data))
    }
}

#[derive(Debug, PartialEq, Eq)]
pub struct UpdateConfig {
    pub accounts: UpdateConfigAccounts,
    pub data: Vec<u8>,
}

impl UpdateConfig {
    pub const DISCRIMINATOR: u8 = 4;

    pub fn try_from(
        data: &[u8],
        accounts: &[Pubkey],
        authority_is_signer: bool,
        config_owner: &Pubkey,
        config_data: &[u8],
        program_id: &Pubkey,
    ) -> (r: Result<UpdateConfig, AmmError>)
        ensures
            match update_accounts_result(
                accounts@,
                authority_is_signer,
                *config_owner,
                config_data@,
                *program_id,
            ) {
                Err(e) => r == Err::<UpdateConfig, AmmError>(e),
                Ok(a) => (r matches Ok(u) && u.accounts == a && u.data@ == data@),
            },
    {
        let accounts = UpdateConfigAccounts::try_from(
            accounts,
            authority_is_signer,
            config_owner,
            config_data,
            program_id,
        )?;
        Ok(UpdateConfig { accounts, data: slice_to_vec(data) })
    }

    /// Applies the update to the record bytes and returns the record's new
    /// bytes.
    pub fn process(&self, config_owner: &Pubkey, config_data: &[u8], program_id: &Pubkey) -> (r:
        Result<Vec<u8>, AmmError>)
        ensures
            r matches Err(e) ==> update_config_result(
                self.data@,
                *config_owner,
                config_data@,
                *program_id,
            ) == Err::<(), AmmError>(e),
            r matches Ok(v) ==> {
                &&& update_config_result(self.data@, *config_owner, config_data@, *program_id)
                    is Ok
                &&& encode_config(config_of(v@)) == v@
                &&& update_applied(self.data@, config_of(config_data@), config_of(v@))
            },
            update_config_result(self.data@, *config_owner, config_data@, *program_id) is Ok
                ==> r is Ok,
    {
        let n = self.data.len();
        if n != 1 && n != 2 && n != 32 {
            return Err(AmmError::MalformedInput);
        }
        let mut config = Config::load(config_owner, config_data, program_id)?;
        if n == 1 {
            self.process_update_status(&mut config)?;
        } else if n == 2 {
            self.process_update_fee(&mut config)?;
        } else {
            self.process_update_authority(&mut config)?;
        }
        let bytes = config.to_bytes();
        proof {
            crate::state::lemma_config_round_trip(config@, config_of(bytes@));
        }
        Ok(bytes)
    }

    /// Sets the record's authority from a 32-byte payload.
    pub fn process_update_authority(&self, config: &mut Config) -> (r: Result<(), AmmError>)
        ensures
            r is Ok <==> self.data@.len() == 32,
            r is Err ==> r == Err::<(), AmmError>(AmmError::MalformedInput) && final(config)@
                == old(config)@,
            r is Ok ==> update_applied(self.data@, old(config)@, final(config)@),
    {
        let d = UpdateConfigAuthorityInstructionData::try_from(self.data.as_slice())?;
        config.set_authority(d.authority);
        Ok(())
    }

    /// Sets the record's fee from a 2-byte payload.
    pub fn process_update_fee(&self, config: &mut Config) -> (r: Result<(), AmmError>)
        ensures
            self.data@.len() != 2 ==> r == Err::<(), AmmError>(AmmError::MalformedInput),
            self.data@.len() == 2 ==> r == update_outcome(self.data@, old(config)@),
            r is Err ==> final(config)@ == old(config)@,
            r is Ok ==> update_applied(self.data@, old(config)@, final(config)@),
    {
        let d = UpdateConfigFeeInstructionData::try_from(self.data.as_slice())?;
        config.set_fee(d.fee)
    }

    /// Sets the record's state from a 1-byte payload. `Uninitialized` is
    /// refused, and so is any change to a record still `Uninitialized`.
    pub fn process_update_status(&self, config: &mut Config) -> (r: Result<(), AmmError>)
        ensures
            self.data@.len() != 1 ==> r == Err::<(), AmmError>(AmmError::MalformedInput),
            self.data@.len() == 1 ==> r == update_outcome(self.data@, old(config)@),
            r is Err ==> final(config)@ == old(config)@,
            r is Ok ==> update_applied(self.data@, old(config)@, final(config)@),
    {
        let d = UpdateConfigStatusInstructionData::try_from(self.data.as_slice())?;
        if d.status == 0 || d.status > 3 {
            return Err(AmmError::MalformedInput);
        }
        if config.state() == 0 {
            return Err(AmmError::InvalidState);
        }
        config.set_state(d.status)
    }
}

} // verus!
