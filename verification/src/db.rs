//! How the store is reached.

use vstd::prelude::*;

verus! {

/// Where the relational store listens and how to log in.
#[derive(Clone, Debug, PartialEq, Eq)]
pub struct DbConfig {
    pub host: String,
    pub port: i32,
    pub user: String,
    pub password: String,
    pub database: String,
}

/// How many connections the pool keeps at most.
pub const POOL_SIZE: usize = 4;

} // verus!
