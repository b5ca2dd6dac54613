use pinocchio_amm::constants::{CONFIG_LEN, CONFIG_SEED, MAX_FEE_BPS, MINT_LP_SEED};
use pinocchio_amm::{AmmError, AmmState, Config};

fn key(b: u8) -> [u8; 32] {
    [b; 32]
}

fn sample() -> Config {
    let mut c = Config::zeroed();
    c.set_inner(0x0102030405060708, key(7), key(1), key(2), 30, [254]).unwrap();
    c
}

#[test]
fn state_bytes_decode_totally() {
    assert_eq!(AmmState::from_u8(0), Some(AmmState::Uninitialized));
    assert_eq!(AmmState::from_u8(1), Some(AmmState::Initialized));
    assert_eq!(AmmState::from_u8(2), Some(AmmState::Disabled));
    assert_eq!(AmmState::from_u8(3), Some(AmmState::WithdrawOnly));
    assert_eq!(AmmState::from_u8(4), None);
    assert_eq!(AmmState::from_u8(255), None);
    assert_eq!(AmmState::WithdrawOnly.to_u8(), 3);
}

#[test]
fn record_layout_is_fixed_little_endian() {
    let b = sample().to_bytes();
    assert_eq!(b.len(), CONFIG_LEN);
    assert_eq!(Config::LEN, 108);
    assert_eq!(b[0], 1);
    assert_eq!(&b[1..9], &[8, 7, 6, 5, 4, 3, 2, 1]);
    assert_eq!(&b[9..41], &key(7));
    assert_eq!(&b[41..73], &key(1));
    assert_eq!(&b[73..105], &key(2));
    assert_eq!(&b[105..107], &[30, 0]);
    assert_eq!(b[107], 254);
}

#[test]
fn record_round_trips() {
    let c = sample();
    let d = Config::from_bytes(&c.to_bytes()).unwrap();
    assert_eq!(d, c);
    assert_eq!(d.state(), 1);
    assert_eq!(d.seed(), 0x0102030405060708);
    assert_eq!(d.authority(), key(7));
    assert_eq!(d.mint_x(), key(1));
    assert_eq!(d.mint_y(), key(2));
    assert_eq!(d.fee(), 30);
    assert_eq!(d.config_bump(), [254]);
}

#[test]
fn record_with_bad_bytes_is_refused() {
    let b = sample().to_bytes();
    assert_eq!(Config::from_bytes(&b[..107]), Err(AmmError::AccountMismatch));
    let mut longer = b.clone();
    longer.push(0);
    assert_eq!(Config::from_bytes(&longer), Err(AmmError::AccountMismatch));
    let mut bad_state = b.clone();
    bad_state[0] = 4;
    assert_eq!(Config::from_bytes(&bad_state), Err(AmmError::AccountMismatch));
    let mut bad_fee = b.clone();
    bad_fee[105] = 0x11;
    bad_fee[106] = 0x27; // 10001
    assert_eq!(Config::from_bytes(&bad_fee), Err(AmmError::AccountMismatch));
    bad_fee[105] = 0x10; // 10000
    assert!(Config::from_bytes(&bad_fee).is_ok());
}

#[test]
fn load_checks_owner() {
    let b = sample().to_bytes();
    assert_eq!(Config::load(&key(9), &b, &key(9)), Ok(sample()));
    assert_eq!(Config::load(&key(8), &b, &key(9)), Err(AmmError::AccountMismatch));
    assert_eq!(Config::load(&key(9), &b[..100], &key(9)), Err(AmmError::AccountMismatch));
}

#[test]
fn fee_above_whole_is_refused() {
    let mut c = sample();
    assert_eq!(c.set_fee(MAX_FEE_BPS), Ok(()));
    assert_eq!(c.fee(), 10000);
    assert_eq!(c.set_fee(10001), Err(AmmError::MalformedInput));
    assert_eq!(c.fee(), 10000);
    assert_eq!(c.set_fee(0), Ok(()));
    assert_eq!(c.fee(), 0);
}

#[test]
fn state_outside_known_values_is_refused() {
    let mut c = sample();
    assert_eq!(c.set_state(3), Ok(()));
    assert_eq!(c.state(), 3);
    assert_eq!(c.set_state(4), Err(AmmError::MalformedInput));
    assert_eq!(c.state(), 3);
    assert_eq!(c.set_state(2), Ok(()));
    assert_eq!(c.state(), 2);
}

#[test]
fn set_inner_refuses_bad_fee_without_writing() {
    let mut c = Config::zeroed();
    assert_eq!(c.set_inner(1, key(7), key(1), key(2), 10001, [1]), Err(AmmError::MalformedInput));
    assert_eq!(c, Config::zeroed());
    assert_eq!(c.state(), 0);
}

#[test]
fn single_field_setters() {
    let mut c = sample();
    c.set_seed(42);
    c.set_authority(key(3));
    c.set_mint_x(key(4));
    c.set_mint_y(key(5));
    c.set_config_bump([9]);
    assert_eq!(c.seed(), 42);
    assert_eq!(c.authority(), key(3));
    assert_eq!(c.mint_x(), key(4));
    assert_eq!(c.mint_y(), key(5));
    assert_eq!(c.config_bump(), [9]);
    assert_eq!(c.fee(), 30);
}

#[test]
fn zero_authority_means_none() {
    let mut c = sample();
    assert_eq!(c.has_authority(), Some(key(7)));
    c.set_authority([0; 32]);
    assert_eq!(c.has_authority(), None);
    let mut last = [0u8; 32];
    last[31] = 1;
    c.set_authority(last);
    assert_eq!(c.has_authority(), Some(last));
}

#[test]
fn signer_carries_record_seeds() {
    let s = sample().signer();
    assert_eq!(s.seed_bytes(), vec![8, 7, 6, 5, 4, 3, 2, 1]);
    assert_eq!(s.mint_x(), key(1));
    assert_eq!(s.mint_y(), key(2));
    assert_eq!(s.bump(), [254]);
}

#[test]
fn seed_literals() {
    assert_eq!(&CONFIG_SEED, b"config");
    assert_eq!(&MINT_LP_SEED, b"mint_lp");
}
