use pinocchio_amm::instructions::deposit::Deposit;
use pinocchio_amm::instructions::initialize::Initialize;
use pinocchio_amm::instructions::swap::Swap;
use pinocchio_amm::instructions::update_config::UpdateConfig;
use pinocchio_amm::instructions::{DerivedVault, PoolBalances, TokenInstruction, VaultSeeds};
use pinocchio_amm::AmmError;

const PROGRAM: [u8; 32] = [9; 32];
const TOKEN_PROGRAM: [u8; 32] = [6; 32];
const MX: [u8; 32] = [1; 32];
const MY: [u8; 32] = [2; 32];
const AUTHORITY: [u8; 32] = [7; 32];
const CONFIG: [u8; 32] = [27; 32];

fn le(fields: &[u64]) -> Vec<u8> {
    fields.iter().flat_map(|f| f.to_le_bytes()).collect()
}

fn vault(mint: [u8; 32], address: [u8; 32]) -> DerivedVault {
    DerivedVault { seeds: VaultSeeds { wallet: CONFIG, token_program: TOKEN_PROGRAM, mint }, address }
}

#[test]
fn initialize_deposit_swap_disable() {
    // Initialize(seed = 1, fee = 30, Mx, My) with an authority
    let mut data = le(&[1]);
    data.extend_from_slice(&30u16.to_le_bytes());
    data.extend_from_slice(&MX);
    data.extend_from_slice(&MY);
    data.extend_from_slice(&[254, 253]);
    data.extend_from_slice(&AUTHORITY);
    let init = Initialize::try_from(&data, &[[10; 32], [21; 32], CONFIG, [0; 32], TOKEN_PROGRAM]).unwrap();
    let record = init.process().unwrap().config_data;

    // first deposit into the empty pool: 1000 LP for (1000, 2000)
    let pool = [[20; 32], [21; 32], [22; 32], [23; 32], [24; 32], [25; 32], [26; 32], CONFIG, TOKEN_PROGRAM];
    let dep = Deposit::try_from(&le(&[1000, 1000, 2000, 100]), &pool, 0).unwrap();
    let vx = vault(MX, [22; 32]);
    let vy = vault(MY, [23; 32]);
    let calls = dep
        .process(&PROGRAM, &PROGRAM, &record, &vx, &vy, &PoolBalances { lp_supply: 0, x: 0, y: 0 })
        .unwrap();
    let amounts: Vec<u64> = calls
        .iter()
        .map(|c| match c.instruction {
            TokenInstruction::Transfer { amount, .. } => amount,
            TokenInstruction::MintTo { amount, .. } => amount,
            TokenInstruction::Burn { amount, .. } => amount,
        })
        .collect();
    assert_eq!(amounts, vec![1000, 2000, 1000]);
    let (x, y, supply) = (1000u64, 2000u64, 1000u64);
    assert_eq!(supply, 1000);

    // swap 100 of x
    let swap_accounts = [[20; 32], [24; 32], [25; 32], [22; 32], [23; 32], CONFIG, TOKEN_PROGRAM];
    let mut payload = vec![1u8];
    payload.extend(le(&[100, 1, 100]));
    let s = Swap::try_from(&payload, &swap_accounts, 0).unwrap();
    let calls = s.process(&PROGRAM, &PROGRAM, &record, &vx, &vy, x, y).unwrap();
    let out = match calls[1].instruction {
        TokenInstruction::Transfer { amount, .. } => amount,
        _ => panic!("expected a transfer"),
    };
    assert_eq!(out, 180);
    let net = 100u128 * (10000 - 30) / 10000;
    assert!((x as u128 + net) * (y - out) as u128 >= x as u128 * y as u128);

    // disable the pool, then the same swap fails on the state check
    let upd = UpdateConfig::try_from(&[2], &[AUTHORITY, CONFIG], true, &PROGRAM, &record, &PROGRAM).unwrap();
    let disabled = upd.process(&PROGRAM, &record, &PROGRAM).unwrap();
    assert_eq!(
        s.process(&PROGRAM, &PROGRAM, &disabled, &vx, &vy, x + 100, y - out),
        Err(AmmError::InvalidState)
    );
}
