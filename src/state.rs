use vstd::bytes::{
    spec_u16_from_le_bytes, spec_u16_to_le_bytes, spec_u64_from_le_bytes, spec_u64_to_le_bytes,
    u16_from_le_bytes, u16_to_le_bytes, u64_from_le_bytes, u64_to_le_bytes,
};
use vstd::prelude::*;
use vstd::slice::slice_subrange;

use crate::bytes::{append_bytes, is_zero_key, keys_equal, read_key, Pubkey};
use crate::constants::{CONFIG_LEN, MAX_FEE_BPS};
use crate::error::AmmError;

verus! {

/// Life-cycle state of a pool.
#[derive(Clone, Copy, Debug, PartialEq, Eq, Structural)]
pub enum AmmState {
    Uninitialized,
    Initialized,
    Disabled,
    WithdrawOnly,
}

impl AmmState {
    /// The byte that encodes this state.
    pub open spec fn spec_to_u8(self) -> u8 {
        match self {
            AmmState::Uninitialized => 0,
            AmmState::Initialized => 1,
            AmmState::Disabled => 2,
            AmmState::WithdrawOnly => 3,
        }
    }

    pub fn to_u8(self) -> (r: u8)
        ensures
            r == self.spec_to_u8(),
    {
        match self {
            AmmState::Uninitialized => 0,
            AmmState::Initialized => 1,
            AmmState::Disabled => 2,
            AmmState::WithdrawOnly => 3,
        }
    }

    /// Total decode: every byte outside `0..=3` is refused.
    pub fn from_u8(b: u8) -> (r: Option<AmmState>)
        ensures
            r is Some <==> b <= 3,
            r matches Some(s) ==> s.spec_to_u8() == b,
    {
        match b {
            0 => Some(AmmState::Uninitialized),
            1 => Some(AmmState::Initialized),
            2 => Some(AmmState::Disabled),
            3 => Some(AmmState::WithdrawOnly),
            _ => None,
        }
    }
}

/// What a configuration record holds.
pub struct ConfigView {
    pub state: AmmState,
    pub seed: u64,
    pub authority: Pubkey,
    pub mint_x: Pubkey,
    pub mint_y: Pubkey,
    pub fee: u16,
    pub config_bump: u8,
}

impl ConfigView {
    /// The fee is at most 100%.
    pub open spec fn wf(self) -> bool {
        self.fee <= MAX_FEE_BPS
    }
}

/// Fixed little-endian layout: state (1), seed (8), authority (32),
/// mint_x (32), mint_y (32), fee (2), bump (1).
pub open spec fn encode_config(c: ConfigView) -> Seq<u8> {
    seq![c.state.spec_to_u8()] + spec_u64_to_le_bytes(c.seed) + c.authority@ + c.mint_x@
        + c.mint_y@ + spec_u16_to_le_bytes(c.fee) + seq![c.config_bump]
}

/// Bytes that decode to a record: the exact length, a known state and a
/// fee of at most 100%.
pub open spec fn config_bytes_valid(b: Seq<u8>) -> bool {
    &&& b.len() == CONFIG_LEN
    &&& b[0] <= 3
    &&& spec_u16_from_le_bytes(b.subrange(105, 107)) <= MAX_FEE_BPS
}

/// The pool's configuration record, as a value decoded from and encoded to
/// the record account's bytes.
#[derive(Debug, PartialEq, Eq)]
pub struct Config {
    state: AmmState,
    seed: u64,
    authority: Pubkey,
    mint_x: Pubkey,
    mint_y: Pubkey,
    fee: u16,
    config_bump: u8,
}

impl View for Config {
    type V = ConfigView;

    closed spec fn view(&self) -> ConfigView {
        ConfigView {
            state: self.state,
            seed: self.seed,
            authority: self.authority,
            mint_x: self.mint_x,
            mint_y: self.mint_y,
            fee: self.fee,
            config_bump: self.config_bump,
        }
    }
}

/// The seeds with which the record signs for the vaults and the LP mint it
/// controls: `["config", seed, mint_x, mint_y, bump]`. Only a loaded or
/// freshly initialized record hands one out.
#[derive(Debug, PartialEq, Eq)]
pub struct ConfigSigner {
    seed: u64,
    mint_x: Pubkey,
    mint_y: Pubkey,
    config_bump: u8,
}

impl ConfigSigner {
    pub closed spec fn spec_seed(&self) -> u64 {
        self.seed
    }

    pub closed spec fn spec_mint_x(&self) -> Pubkey {
        self.mint_x
    }

    pub closed spec fn spec_mint_y(&self) -> Pubkey {
        self.mint_y
    }

    pub closed spec fn spec_bump(&self) -> u8 {
        self.config_bump
    }

    /// The record's seed as the little-endian bytes that go into the seeds.
    pub fn seed_bytes(&self) -> (r: Vec<u8>)
        ensures
            r@ == spec_u64_to_le_bytes(self.spec_seed()),
    {
        u64_to_le_bytes(self.seed)
    }

    pub fn mint_x(&self) -> (r: Pubkey)
        ensures
            r == self.spec_mint_x(),
    {
        self.mint_x
    }

    pub fn mint_y(&self) -> (r: Pubkey)
        ensures
            r == self.spec_mint_y(),
    {
        self.mint_y
    }

    pub fn bump(&self) -> (r: [u8; 1])
        ensures
            r[0] == self.spec_bump(),
    {
        [self.config_bump]
    }
}

/// The signer of a record with view `c`.
pub closed spec fn signer_for(c: ConfigView) -> ConfigSigner {
    ConfigSigner {
        seed: c.seed,
        mint_x: c.mint_x,
        mint_y: c.mint_y,
        config_bump: c.config_bump,
    }
}

/// The record whose encoding is `b`, where there is one.
pub open spec fn config_of(b: Seq<u8>) -> ConfigView {
    choose|c: ConfigView| encode_config(c) == b
}

impl Config {
    pub const LEN: usize = CONFIG_LEN;

    #[verifier::type_invariant]
    spec fn inv(self) -> bool {
        self.fee <= MAX_FEE_BPS
    }

    /// The contents of a freshly created record account: all zero.
    pub fn zeroed() -> (r: Config)
        ensures
            r@.state == AmmState::Uninitialized,
            r@.seed == 0,
            is_zero_key(r@.authority),
            is_zero_key(r@.mint_x),
            is_zero_key(r@.mint_y),
            r@.fee == 0,
            r@.config_bump == 0,
    {
        Config {
            state: AmmState::Uninitialized,
            seed: 0,
            authority: [0u8; 32],
            mint_x: [0u8; 32],
            mint_y: [0u8; 32],
            fee: 0,
            config_bump: 0,
        }
    }

    /// Decodes a record. Any other length, a state byte above 3 or a fee
    /// above 100% is refused.
    pub fn from_bytes(data: &[u8]) -> (r: Result<Config, AmmError>)
        ensures
            r is Ok <==> config_bytes_valid(data@),
            r matches Ok(c) ==> encode_config(c@) == data@,
            r matches Err(e) ==> e == AmmError::AccountMismatch,
    {
        if data.len() != CONFIG_LEN {
            return Err(AmmError::AccountMismatch);
        }
        let state = match AmmState::from_u8(data[0]) {
            Some(st) => st,
            None => return Err(AmmError::AccountMismatch),
        };
        let fee = u16_from_le_bytes(slice_subrange(data, 105, 107));
        if fee > MAX_FEE_BPS {
            return Err(AmmError::AccountMismatch);
        }
        let seed = u64_from_le_bytes(slice_subrange(data, 1, 9));
        let c = Config {
            state,
            seed,
            authority: read_key(data, 9),
            mint_x: read_key(data, 41),
            mint_y: read_key(data, 73),
            fee,
            config_bump: data[107],
        };
        proof {
            lemma_state_byte_injective();
            vstd::bytes::lemma_auto_spec_u64_to_from_le_bytes();
            vstd::bytes::lemma_auto_spec_u16_to_from_le_bytes();
            assert(encode_config(c@) =~= data@);
        }
        Ok(c)
    }

    /// Checks the record account's owner and length, then decodes it.
    pub fn load(owner: &Pubkey, data: &[u8], program_id: &Pubkey) -> (r: Result<Config, AmmError>)
        ensures
            r is Ok <==> (*owner == *program_id && config_bytes_valid(data@)),
            r matches Ok(c) ==> encode_config(c@) == data@ && c@ == config_of(data@) && c@.wf(),
            r matches Err(e) ==> e == AmmError::AccountMismatch,
    {
        if data.len() != CONFIG_LEN {
            return Err(AmmError::AccountMismatch);
        }
        if !keys_equal(owner, program_id) {
            return Err(AmmError::AccountMismatch);
        }
        let r = Config::from_bytes(data);
        if let Ok(c) = &r {
            proof {
                use_type_invariant(c);
                let d = config_of(data@);
                lemma_config_round_trip(c@, d);
            }
        }
        r
    }

    /// Encodes the record.
    pub fn to_bytes(&self) -> (r: Vec<u8>)
        ensures
            r@ == encode_config(self@),
            r@.len() == CONFIG_LEN,
    {
        let mut v: Vec<u8> = Vec::new();
        v.push(self.state.to_u8());
        let seed = u64_to_le_bytes(self.seed);
        append_bytes(&mut v, seed.as_slice());
        append_bytes(&mut v, &self.authority);
        append_bytes(&mut v, &self.mint_x);
        append_bytes(&mut v, &self.mint_y);
        let fee = u16_to_le_bytes(self.fee);
        append_bytes(&mut v, fee.as_slice());
        v.push(self.config_bump);
        proof {
            vstd::bytes::lemma_auto_spec_u64_to_from_le_bytes();
            vstd::bytes::lemma_auto_spec_u16_to_from_le_bytes();
            assert(v@ =~= encode_config(self@));
        }
        v
    }

    pub fn state(&self) -> (r: u8)
        ensures
            r == self@.state.spec_to_u8(),
    {
        self.state.to_u8()
    }

    pub fn seed(&self) -> (r: u64)
        ensures
            r == self@.seed,
    {
        self.seed
    }

    pub fn authority(&self) -> (r: Pubkey)
        ensures
            r == self@.authority,
    {
        self.authority
    }

    pub fn mint_x(&self) -> (r: Pubkey)
        ensures
            r == self@.mint_x,
    {
        self.mint_x
    }

    pub fn mint_y(&self) -> (r: Pubkey)
        ensures
            r == self@.mint_y,
    {
        self.mint_y
    }

    pub fn fee(&self) -> (r: u16)
        ensures
            r == self@.fee,
            r <= MAX_FEE_BPS,
    {
        proof {
            use_type_invariant(self);
        }
        self.fee
    }

    pub fn config_bump(&self) -> (r: [u8; 1])
        ensures
            r[0] == self@.config_bump,
    {
        [self.config_bump]
    }

    /// Sets the state from its byte; a byte above 3 is refused and leaves
    /// the record as it was.
    pub fn set_state(&mut self, state: u8) -> (r: Result<(), AmmError>)
        ensures
            r is Ok <==> state <= 3,
            r is Ok ==> r == Ok::<(), AmmError>(()),
            r is Ok ==> final(self)@ == (ConfigView {
                state: final(self)@.state,
                ..old(self)@
            }) && final(self)@.state.spec_to_u8() == state,
            r is Err ==> final(self)@ == old(self)@ && r == Err::<(), AmmError>(
                AmmError::MalformedInput,
            ),
    {
        proof {
            use_type_invariant(&*self);
        }
        match AmmState::from_u8(state) {
            Some(st) => {
                self.state = st;
                Ok(())
            },
            None => Err(AmmError::MalformedInput),
        }
    }

    pub fn set_seed(&mut self, seed: u64)
        ensures
            final(self)@ == (ConfigView { seed, ..old(self)@ }),
    {
        proof {
            use_type_invariant(&*self);
        }
        self.seed = seed;
    }

    pub fn set_authority(&mut self, authority: Pubkey)
        ensures
            final(self)@ == (ConfigView { authority, ..old(self)@ }),
    {
        proof {
            use_type_invariant(&*self);
        }
        self.authority = authority;
    }

    pub fn set_mint_x(&mut self, mint_x: Pubkey)
        ensures
            final(self)@ == (ConfigView { mint_x, ..old(self)@ }),
    {
        proof {
            use_type_invariant(&*self);
        }
        self.mint_x = mint_x;
    }

    pub fn set_mint_y(&mut self, mint_y: Pubkey)
        ensures
            final(self)@ == (ConfigView { mint_y, ..old(self)@ }),
    {
        proof {
            use_type_invariant(&*self);
        }
        self.mint_y = mint_y;
    }

    /// Sets the fee; a fee above 100% is refused and leaves the record as
    /// it was.
    pub fn set_fee(&mut self, fee: u16) -> (r: Result<(), AmmError>)
        ensures
            r is Ok <==> fee <= MAX_FEE_BPS,
            r is Ok ==> r == Ok::<(), AmmError>(()),
            r is Ok ==> final(self)@ == (ConfigView { fee, ..old(self)@ }),
            r is Err ==> final(self)@ == old(self)@ && r == Err::<(), AmmError>(
                AmmError::MalformedInput,
            ),
    {
        if fee > MAX_FEE_BPS {
            return Err(AmmError::MalformedInput);
        }
        self.fee = fee;
        Ok(())
    }

    pub fn set_config_bump(&mut self, config_bump: [u8; 1])
        ensures
            final(self)@ == (ConfigView { config_bump: config_bump[0], ..old(self)@ }),
    {
        proof {
            use_type_invariant(&*self);
        }
        self.config_bump = config_bump[0];
    }

    /// The one-time write of Initialize: every field set, state forced to
    /// `Initialized`. A fee above 100% is refused and nothing is written.
    pub fn set_inner(
        &mut self,
        seed: u64,
        authority: Pubkey,
        mint_x: Pubkey,
        mint_y: Pubkey,
        fee: u16,
        config_bump: [u8; 1],
    ) -> (r: Result<(), AmmError>)
        ensures
            r is Ok <==> fee <= MAX_FEE_BPS,
            r is Ok ==> final(self)@ == (ConfigView {
                state: AmmState::Initialized,
                seed,
                authority,
                mint_x,
                mint_y,
                fee,
                config_bump: config_bump[0],
            }),
            r is Err ==> final(self)@ == old(self)@ && r == Err::<(), AmmError>(
                AmmError::MalformedInput,
            ),
    {
        if fee > MAX_FEE_BPS {
            return Err(AmmError::MalformedInput);
        }
        proof {
            use_type_invariant(&*self);
        }
        self.state = AmmState::Initialized;
        self.set_seed(seed);
        self.set_authority(authority);
        self.set_mint_x(mint_x);
        self.set_mint_y(mint_y);
        let _ = self.set_fee(fee);
        self.set_config_bump(config_bump);
        Ok(())
    }

    /// The authority, or `None` when it is all zero bytes (an immutable
    /// configuration).
    pub fn has_authority(&self) -> (r: Option<Pubkey>)
        ensures
            r is None <==> is_zero_key(self@.authority),
            r matches Some(k) ==> k == self@.authority,
    {
        let mut i: usize = 0;
        while i < 32
            invariant
                0 <= i <= 32,
                forall|j: int| 0 <= j < i ==> self.authority@[j] == 0,
            decreases 32 - i,
        {
            if self.authority[i] != 0 {
                return Some(self.authority);
            }
            i = i + 1;
        }
        None
    }

    /// The seeds with which this record signs.
    pub fn signer(&self) -> (r: ConfigSigner)
        ensures
            r == signer_for(self@),
    {
        ConfigSigner {
            seed: self.seed,
            mint_x: self.mint_x,
            mint_y: self.mint_y,
            config_bump: self.config_bump,
        }
    }
}

proof fn lemma_state_byte_injective()
    ensures
        forall|a: AmmState, b: AmmState| #[trigger]
            a.spec_to_u8() == #[trigger] b.spec_to_u8() ==> a == b,
{
}

/// Encoding a well-formed record gives valid bytes, and no other record
/// encodes to the same bytes: decoding the encoding of a record gives that
/// record back.
pub proof fn lemma_config_round_trip(c: ConfigView, d: ConfigView)
    requires
        c.wf(),
    ensures
        config_bytes_valid(encode_config(c)),
        encode_config(d) == encode_config(c) ==> d == c,
{
    vstd::bytes::lemma_auto_spec_u64_to_from_le_bytes();
    vstd::bytes::lemma_auto_spec_u16_to_from_le_bytes();
    lemma_state_byte_injective();
    let e = encode_config(c);
    assert(e.subrange(105, 107) =~= spec_u16_to_le_bytes(c.fee));
    if encode_config(d) == e {
        let f = encode_config(d);
        assert(f.subrange(1, 9) =~= spec_u64_to_le_bytes(d.seed));
        assert(e.subrange(1, 9) =~= spec_u64_to_le_bytes(c.seed));
        assert(f.subrange(105, 107) =~= spec_u16_to_le_bytes(d.fee));
        assert(f[0] == d.state.spec_to_u8());
        assert(e[0] == c.state.spec_to_u8());
        assert(d.authority@ =~= f.subrange(9, 41));
        assert(c.authority@ =~= e.subrange(9, 41));
        assert(d.mint_x@ =~= f.subrange(41, 73));
        assert(c.mint_x@ =~= e.subrange(41, 73));
        assert(d.mint_y@ =~= f.subrange(73, 105));
        assert(c.mint_y@ =~= e.subrange(73, 105));
        assert(d.authority =~= c.authority);
        assert(d.mint_x =~= c.mint_x);
        assert(d.mint_y =~= c.mint_y);
        assert(f[107] == d.config_bump);
    }
}

} // verus!
