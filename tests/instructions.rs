use pinocchio_amm::instructions::deposit::{Deposit, DepositAccounts, DepositInstructionData};
use pinocchio_amm::instructions::initialize::{
    Initialize, InitializeAccounts, InitializeInstructionData, MintLpSigner,
};
use pinocchio_amm::instructions::swap::{Swap, SwapInstructionData};
use pinocchio_amm::instructions::update_config::{
    UpdateConfig, UpdateConfigAccounts, UpdateConfigAuthorityInstructionData,
    UpdateConfigFeeInstructionData, UpdateConfigStatusInstructionData,
};
use pinocchio_amm::instructions::withdraw::{Withdraw, WithdrawInstructionData};
use pinocchio_amm::instructions::{
    split_instruction, DerivedVault, InstructionKind, PoolBalances, TokenCall, TokenInstruction,
    VaultSeeds,
};
use pinocchio_amm::{AmmError, Config};

const PROGRAM: [u8; 32] = [9; 32];
const TOKEN_PROGRAM: [u8; 32] = [6; 32];

fn key(b: u8) -> [u8; 32] {
    [b; 32]
}

fn le(fields: &[u64]) -> Vec<u8> {
    fields.iter().flat_map(|f| f.to_le_bytes()).collect()
}

fn config_bytes(state: u8, fee: u16, authority: [u8; 32]) -> Vec<u8> {
    let mut c = Config::zeroed();
    c.set_inner(1, authority, key(1), key(2), fee, [255]).unwrap();
    c.set_state(state).unwrap();
    c.to_bytes()
}

fn vault(config: [u8; 32], mint: [u8; 32], address: [u8; 32]) -> DerivedVault {
    DerivedVault { seeds: VaultSeeds { wallet: config, token_program: TOKEN_PROGRAM, mint }, address }
}

// user, mint_lp, vault_x, vault_y, user_x, user_y, user_lp, config, token program
fn pool_accounts() -> Vec<[u8; 32]> {
    vec![key(20), key(21), key(22), key(23), key(24), key(25), key(26), key(27), TOKEN_PROGRAM]
}

#[test]
fn opcode_selects_instruction() {
    let (k, p) = split_instruction(&[3, 7, 8]).unwrap();
    assert_eq!(k, InstructionKind::Swap);
    assert_eq!(p, &[7, 8]);
    assert_eq!(split_instruction(&[0]).unwrap().0, InstructionKind::Initialize);
    assert_eq!(split_instruction(&[4, 1]).unwrap().0, InstructionKind::UpdateConfig);
    assert_eq!(split_instruction(&[5]).unwrap_err(), AmmError::MalformedInput);
    assert_eq!(split_instruction(&[]).unwrap_err(), AmmError::MalformedInput);
}

#[test]
fn deposit_payload_decodes() {
    let mut b = le(&[10, 20, 30]);
    b.extend_from_slice(&(-5i64).to_le_bytes());
    let d = DepositInstructionData::try_from(&b, -5).unwrap();
    assert_eq!(d, DepositInstructionData { amount: 10, max_x: 20, max_y: 30, expiration: -5 });
    assert_eq!(DepositInstructionData::try_from(&b, -4), Err(AmmError::MalformedInput));
    assert_eq!(DepositInstructionData::try_from(&b[..31], -5), Err(AmmError::MalformedInput));
    let zero = le(&[0, 20, 30, 100]);
    assert_eq!(DepositInstructionData::try_from(&zero, 0), Err(AmmError::MalformedInput));
    let zero_max = le(&[10, 20, 0, 100]);
    assert_eq!(DepositInstructionData::try_from(&zero_max, 0), Err(AmmError::MalformedInput));
}

#[test]
fn withdraw_payload_decodes() {
    let b = le(&[10, 20, 30, 100]);
    let d = WithdrawInstructionData::try_from(&b, 100).unwrap();
    assert_eq!(d, WithdrawInstructionData { amount: 10, min_x: 20, min_y: 30, expiration: 100 });
    assert_eq!(WithdrawInstructionData::try_from(&b, 101), Err(AmmError::MalformedInput));
    assert_eq!(WithdrawInstructionData::try_from(&le(&[10, 0, 30, 100]), 0), Err(AmmError::MalformedInput));
}

#[test]
fn swap_payload_decodes() {
    let mut b = vec![1u8];
    b.extend(le(&[100, 5, 50]));
    let d = SwapInstructionData::try_from(&b, 0).unwrap();
    assert_eq!(d, SwapInstructionData { is_x: true, amount: 100, min: 5, expiration: 50 });
    b[0] = 0;
    assert!(!SwapInstructionData::try_from(&b, 0).unwrap().is_x);
    b[0] = 2;
    assert_eq!(SwapInstructionData::try_from(&b, 0), Err(AmmError::MalformedInput));
    b[0] = 1;
    assert_eq!(SwapInstructionData::try_from(&b, 51), Err(AmmError::MalformedInput));
    assert_eq!(SwapInstructionData::try_from(&b[..24], 0), Err(AmmError::MalformedInput));
}

#[test]
fn initialize_payload_with_and_without_authority() {
    let mut b = le(&[1]);
    b.extend_from_slice(&30u16.to_le_bytes());
    b.extend_from_slice(&key(1));
    b.extend_from_slice(&key(2));
    b.push(250);
    b.push(251);
    let d = InitializeInstructionData::try_from(&b).unwrap();
    assert_eq!(d.seed, 1);
    assert_eq!(d.fee, 30);
    assert_eq!(d.mint_x, key(1));
    assert_eq!(d.mint_y, key(2));
    assert_eq!(d.config_bump, [250]);
    assert_eq!(d.lp_bump, [251]);
    assert_eq!(d.authority, None);
    b.extend_from_slice(&key(7));
    assert_eq!(InitializeInstructionData::try_from(&b).unwrap().authority, Some(key(7)));
    b.push(0);
    assert_eq!(InitializeInstructionData::try_from(&b).unwrap_err(), AmmError::MalformedInput);
}

#[test]
fn account_lists_must_have_their_shape() {
    assert_eq!(DepositAccounts::try_from(&pool_accounts()[..8]), Err(AmmError::NotEnoughAccountKeys));
    let a = DepositAccounts::try_from(&pool_accounts()).unwrap();
    assert_eq!(a.config, key(27));
    assert_eq!(a.token_program, TOKEN_PROGRAM);
    assert_eq!(
        InitializeAccounts::try_from(&[key(1), key(2), key(3), key(4), key(5)]).unwrap(),
        InitializeAccounts { initializer: key(1), mint_lp: key(2), config: key(3) }
    );
    assert_eq!(InitializeAccounts::try_from(&[key(1)]), Err(AmmError::NotEnoughAccountKeys));
}

#[test]
fn update_payloads_have_fixed_lengths() {
    assert_eq!(UpdateConfigAuthorityInstructionData::try_from(&key(3)).unwrap().authority, key(3));
    assert_eq!(UpdateConfigAuthorityInstructionData::try_from(&[1, 2]), Err(AmmError::MalformedInput));
    assert_eq!(UpdateConfigFeeInstructionData::try_from(&[0x10, 0x27]).unwrap().fee, 10000);
    assert_eq!(UpdateConfigFeeInstructionData::try_from(&[1]), Err(AmmError::MalformedInput));
    assert_eq!(UpdateConfigStatusInstructionData::try_from(&[2]).unwrap().status, 2);
    assert_eq!(UpdateConfigStatusInstructionData::try_from(&[]), Err(AmmError::MalformedInput));
}

fn deposit(amount: u64, max_x: u64, max_y: u64) -> Deposit {
    Deposit::try_from(&le(&[amount, max_x, max_y, 100]), &pool_accounts(), 0).unwrap()
}

#[test]
fn deposit_plan_orders_transfers_before_mint() {
    let cfg = config_bytes(1, 30, key(7));
    let d = deposit(10, 1000, 1000);
    let vx = vault(key(27), key(1), key(22));
    let vy = vault(key(27), key(2), key(23));
    let bal = PoolBalances { lp_supply: 50, x: 100, y: 200 };
    let calls = d.process(&PROGRAM, &PROGRAM, &cfg, &vx, &vy, &bal).unwrap();
    let signer = Config::from_bytes(&cfg).unwrap().signer();
    assert_eq!(
        calls,
        vec![
            TokenCall {
                instruction: TokenInstruction::Transfer { from: key(24), to: key(22), authority: key(20), amount: 20 },
                signer: None,
            },
            TokenCall {
                instruction: TokenInstruction::Transfer { from: key(25), to: key(23), authority: key(20), amount: 40 },
                signer: None,
            },
            TokenCall {
                instruction: TokenInstruction::MintTo { mint: key(21), account: key(26), mint_authority: key(27), amount: 10 },
                signer: Some(signer),
            },
        ]
    );
}

#[test]
fn deposit_rejects_substituted_vault() {
    let cfg = config_bytes(1, 30, key(7));
    let d = deposit(10, 1000, 1000);
    let bal = PoolBalances { lp_supply: 50, x: 100, y: 200 };
    let good_x = vault(key(27), key(1), key(22));
    let good_y = vault(key(27), key(2), key(23));
    // derived address differs from the supplied account
    let wrong_addr = vault(key(27), key(1), key(99));
    assert_eq!(d.process(&PROGRAM, &PROGRAM, &cfg, &wrong_addr, &good_y, &bal), Err(AmmError::AccountMismatch));
    // derived for the wrong mint
    let wrong_mint = vault(key(27), key(2), key(22));
    assert_eq!(d.process(&PROGRAM, &PROGRAM, &cfg, &wrong_mint, &good_y, &bal), Err(AmmError::AccountMismatch));
    // derived for another record
    let wrong_owner = vault(key(28), key(2), key(23));
    assert_eq!(d.process(&PROGRAM, &PROGRAM, &cfg, &good_x, &wrong_owner, &bal), Err(AmmError::AccountMismatch));
    // record not owned by the program
    assert_eq!(d.process(&PROGRAM, &key(8), &cfg, &good_x, &good_y, &bal), Err(AmmError::AccountMismatch));
}

#[test]
fn deposit_requires_initialized_pool() {
    let vx = vault(key(27), key(1), key(22));
    let vy = vault(key(27), key(2), key(23));
    let bal = PoolBalances { lp_supply: 50, x: 100, y: 200 };
    for state in [2u8, 3] {
        let cfg = config_bytes(state, 30, key(7));
        assert_eq!(deposit(10, 1000, 1000).process(&PROGRAM, &PROGRAM, &cfg, &vx, &vy, &bal), Err(AmmError::InvalidState));
    }
}

#[test]
fn deposit_slippage_is_reported() {
    let cfg = config_bytes(1, 30, key(7));
    let vx = vault(key(27), key(1), key(22));
    let vy = vault(key(27), key(2), key(23));
    let bal = PoolBalances { lp_supply: 50, x: 100, y: 200 };
    assert_eq!(deposit(10, 19, 1000).process(&PROGRAM, &PROGRAM, &cfg, &vx, &vy, &bal), Err(AmmError::SlippageExceeded));
}

#[test]
fn deposit_with_zero_amount_is_malformed() {
    assert_eq!(
        Deposit::try_from(&le(&[0, 1000, 2000, 100]), &pool_accounts(), 0).unwrap_err(),
        AmmError::MalformedInput
    );
}

#[test]
fn withdraw_plan_pays_out_then_burns() {
    let cfg = config_bytes(1, 30, key(7));
    let w = Withdraw::try_from(&le(&[10, 20, 40, 100]), &pool_accounts(), 0).unwrap();
    let vx = vault(key(27), key(1), key(22));
    let vy = vault(key(27), key(2), key(23));
    let bal = PoolBalances { lp_supply: 50, x: 100, y: 200 };
    let calls = w.process(&PROGRAM, &PROGRAM, &cfg, &vx, &vy, &bal).unwrap();
    let config = Config::from_bytes(&cfg).unwrap();
    assert_eq!(
        calls,
        vec![
            TokenCall {
                instruction: TokenInstruction::Transfer { from: key(22), to: key(24), authority: key(27), amount: 20 },
                signer: Some(config.signer()),
            },
            TokenCall {
                instruction: TokenInstruction::Transfer { from: key(23), to: key(25), authority: key(27), amount: 40 },
                signer: Some(config.signer()),
            },
            TokenCall {
                instruction: TokenInstruction::Burn { mint: key(21), account: key(26), authority: key(20), amount: 10 },
                signer: None,
            },
        ]
    );
    let greedy = Withdraw::try_from(&le(&[10, 21, 40, 100]), &pool_accounts(), 0).unwrap();
    assert_eq!(greedy.process(&PROGRAM, &PROGRAM, &cfg, &vx, &vy, &bal), Err(AmmError::SlippageExceeded));
}

fn swap_accounts() -> Vec<[u8; 32]> {
    // user, user_x, user_y, vault_x, vault_y, config, token program
    vec![key(20), key(24), key(25), key(22), key(23), key(27), TOKEN_PROGRAM]
}

fn swap(is_x: bool, amount: u64, min: u64) -> Swap {
    let mut b = vec![is_x as u8];
    b.extend(le(&[amount, min, 100]));
    Swap::try_from(&b, &swap_accounts(), 0).unwrap()
}

#[test]
fn swap_plan_in_both_directions() {
    let cfg = config_bytes(1, 30, key(7));
    let vx = vault(key(27), key(1), key(22));
    let vy = vault(key(27), key(2), key(23));
    let signer = Config::from_bytes(&cfg).unwrap().signer();
    let calls = swap(true, 100, 1).process(&PROGRAM, &PROGRAM, &cfg, &vx, &vy, 1000, 2000).unwrap();
    assert_eq!(
        calls,
        vec![
            TokenCall {
                instruction: TokenInstruction::Transfer { from: key(24), to: key(22), authority: key(20), amount: 100 },
                signer: None,
            },
            TokenCall {
                instruction: TokenInstruction::Transfer { from: key(23), to: key(25), authority: key(27), amount: 180 },
                signer: Some(signer),
            },
        ]
    );
    // y in: reserves seen as (in = 2000, out = 1000)
    let calls = swap(false, 200, 1).process(&PROGRAM, &PROGRAM, &cfg, &vx, &vy, 1000, 2000).unwrap();
    // net 200 * 9970 / 10000 = 199; new x = ceil(2_000_000 / 2199) = 910
    assert_eq!(
        calls[1].instruction,
        TokenInstruction::Transfer { from: key(22), to: key(24), authority: key(27), amount: 90 }
    );
    assert_eq!(
        calls[0].instruction,
        TokenInstruction::Transfer { from: key(25), to: key(23), authority: key(20), amount: 200 }
    );
}

#[test]
fn swap_uses_the_record_fee() {
    let cfg = config_bytes(1, 0, key(7));
    let vx = vault(key(27), key(1), key(22));
    let vy = vault(key(27), key(2), key(23));
    let calls = swap(true, 1000, 1).process(&PROGRAM, &PROGRAM, &cfg, &vx, &vy, 1000, 1000).unwrap();
    assert_eq!(
        calls[1].instruction,
        TokenInstruction::Transfer { from: key(23), to: key(25), authority: key(27), amount: 500 }
    );
}

fn update(payload: &[u8], cfg: &[u8]) -> Result<UpdateConfig, AmmError> {
    UpdateConfig::try_from(payload, &[key(7), key(27)], true, &PROGRAM, cfg, &PROGRAM)
}

#[test]
fn update_requires_the_signing_authority() {
    let cfg = config_bytes(1, 30, key(7));
    assert_eq!(
        UpdateConfigAccounts::try_from(&[key(7), key(27)], true, &PROGRAM, &cfg, &PROGRAM),
        Ok(UpdateConfigAccounts { authority: key(7), config: key(27) })
    );
    assert_eq!(
        UpdateConfigAccounts::try_from(&[key(8), key(27)], true, &PROGRAM, &cfg, &PROGRAM),
        Err(AmmError::Unauthorized)
    );
    assert_eq!(
        UpdateConfigAccounts::try_from(&[key(7), key(27)], false, &PROGRAM, &cfg, &PROGRAM),
        Err(AmmError::AccountMismatch)
    );
    assert_eq!(
        UpdateConfigAccounts::try_from(&[key(7)], true, &PROGRAM, &cfg, &PROGRAM),
        Err(AmmError::NotEnoughAccountKeys)
    );
    let immutable = config_bytes(1, 30, [0; 32]);
    assert_eq!(
        UpdateConfigAccounts::try_from(&[[0; 32], key(27)], true, &PROGRAM, &immutable, &PROGRAM),
        Err(AmmError::Unauthorized)
    );
}

#[test]
fn update_changes_one_field() {
    let cfg = config_bytes(1, 30, key(7));
    let before = Config::from_bytes(&cfg).unwrap();

    let after = Config::from_bytes(&update(&[2], &cfg).unwrap().process(&PROGRAM, &cfg, &PROGRAM).unwrap()).unwrap();
    assert_eq!(after.state(), 2);
    assert_eq!((after.fee(), after.authority(), after.seed()), (before.fee(), before.authority(), before.seed()));

    let after = Config::from_bytes(&update(&[0x10, 0x27], &cfg).unwrap().process(&PROGRAM, &cfg, &PROGRAM).unwrap()).unwrap();
    assert_eq!(after.fee(), 10000);
    assert_eq!(after.state(), 1);

    let after = Config::from_bytes(&update(&key(3), &cfg).unwrap().process(&PROGRAM, &cfg, &PROGRAM).unwrap()).unwrap();
    assert_eq!(after.authority(), key(3));
    assert_eq!(after.fee(), 30);
}

#[test]
fn update_refuses_bad_values() {
    let cfg = config_bytes(1, 30, key(7));
    let run = |p: &[u8]| update(p, &cfg).unwrap().process(&PROGRAM, &cfg, &PROGRAM);
    assert_eq!(run(&[0x11, 0x27]), Err(AmmError::MalformedInput)); // fee 10001
    assert_eq!(run(&[0]), Err(AmmError::MalformedInput)); // Uninitialized
    assert_eq!(run(&[4]), Err(AmmError::MalformedInput));
    assert_eq!(run(&[1, 2, 3]), Err(AmmError::MalformedInput));
    assert!(run(&[3]).is_ok());
    assert!(run(&[1]).is_ok());
}

#[test]
fn update_status_refused_on_unwritten_record() {
    let mut c = Config::zeroed();
    c.set_authority(key(7));
    let u = UpdateConfig { accounts: UpdateConfigAccounts { authority: key(7), config: key(27) }, data: vec![1] };
    assert_eq!(u.process_update_status(&mut c), Err(AmmError::InvalidState));
    assert_eq!(c.state(), 0);
}

#[test]
fn initialize_plan_writes_record() {
    let mut b = le(&[1]);
    b.extend_from_slice(&30u16.to_le_bytes());
    b.extend_from_slice(&key(1));
    b.extend_from_slice(&key(2));
    b.push(250);
    b.push(251);
    let i = Initialize::try_from(&b, &[key(10), key(11), key(12), key(13), key(14)]).unwrap();
    let plan = i.process().unwrap();
    let c = Config::from_bytes(&plan.config_data).unwrap();
    assert_eq!(c.state(), 1);
    assert_eq!(c.seed(), 1);
    assert_eq!(c.fee(), 30);
    assert_eq!(c.has_authority(), None);
    assert_eq!(c.config_bump(), [250]);
    assert_eq!(plan.config_signer, c.signer());
    assert_eq!(plan.mint_lp_signer, MintLpSigner { config: key(12), lp_bump: [251] });
    assert_eq!(plan.mint_authority, key(12));
    assert_eq!(plan.decimals, 6);

    let mut bad = b.clone();
    bad[8] = 0x11;
    bad[9] = 0x27;
    let i = Initialize::try_from(&bad, &[key(10), key(11), key(12), key(13), key(14)]).unwrap();
    assert_eq!(i.process().unwrap_err(), AmmError::MalformedInput);
}
