//! Verified decision core of a NEAR fungible token contract whose tokens are
//! minted from the NEAR attached to a mint call, less any storage deposit the
//! caller still owes, and burned for a NEAR refund of the amount burned.

pub mod burn;
pub mod hook;
pub mod init;
pub mod laws;
pub mod mint;
pub mod storage;
pub mod token;
