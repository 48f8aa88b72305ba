use vstd::prelude::*;

pub mod address;
pub mod compression;
pub mod crud;
pub mod error;
pub mod hashing;
pub mod pubkey;
pub mod state;
