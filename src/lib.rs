//! A two-asset constant-product market maker: the pool's configuration
//! record, the curve arithmetic, and the validation and planning logic of
//! each instruction. Host effects (account creation, token transfers,
//! address derivation, sysvars) are described by the values this library
//! returns and are carried out by the caller.

pub mod bytes;
pub mod constants;
pub mod curve;
pub mod error;
pub mod instructions;
pub mod state;

pub use bytes::Pubkey;
pub use error::AmmError;
pub use state::{AmmState, Config};
