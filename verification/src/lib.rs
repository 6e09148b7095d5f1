//! Search for a keypair whose first deployed contract has an address that
//! starts with chosen bytes, and the derivation of such contract addresses.

pub mod address;
pub mod encoding;
pub mod error;
pub mod hash;
pub mod keypair;
pub mod prefix;
pub mod uint;

pub use address::Address;
pub use error::Error;
pub use keypair::KeyPair;
pub use prefix::Prefix;
pub use uint::U256;
