//! The pool record and the snapshot of the ledger's balances that each
//! operation works on.
use vstd::prelude::*;

verus! {

/// A 32-byte account identity of the host ledger.
#[derive(Clone, Copy, Debug)]
pub struct Pubkey {
    pub bytes: [u8; 32],
}

impl Pubkey {
    pub fn new(bytes: [u8; 32]) -> (r: Pubkey)
        ensures
            r.bytes@ == bytes@,
    {
        Pubkey { bytes }
    }

    /// Whether the two identities hold the same bytes.
    pub fn same_as(&self, other: &Pubkey) -> (r: bool)
        ensures
            r == (self.bytes@ == other.bytes@),
    {
        let mut i: usize = 0;
        while i < 32
            invariant
                0 <= i <= 32,
                self.bytes@.len() == 32,
                other.bytes@.len() == 32,
                forall|j: int| 0 <= j < i ==> self.bytes@[j] == other.bytes@[j],
            decreases 32 - i,
        {
            if self.bytes[i] != other.bytes[i] {
                assert(self.bytes@[i as int] != other.bytes@[i as int]);
                return false;
            }
            i = i + 1;
        }
        assert(self.bytes@ =~= other.bytes@);
        true
    }
}

/// Whether `signer` is the pool's authority. A pool without an authority can
/// never be locked or unlocked.
pub open spec fn is_authority(authority: Option<Pubkey>, signer: Pubkey) -> bool {
    match authority {
        Some(a) => a.bytes@ == signer.bytes@,
        None => false,
    }
}

/// Tests whether `signer` is the pool's authority.
pub fn check_authority(authority: &Option<Pubkey>, signer: &Pubkey) -> (r: bool)
    ensures
        r == is_authority(*authority, *signer),
{
    match authority {
        Some(a) => a.same_as(signer),
        None => false,
    }
}

/// The per-pool record. Reserves and share supply are not stored here: they
/// are the ledger's live balances.
#[derive(Clone, Copy, Debug)]
pub struct Config {
    /// Part of the pool's derived identity.
    pub seed: u64,
    /// The identity allowed to lock and unlock the pool, if any.
    pub authority: Option<Pubkey>,
    pub mint_x: Pubkey,
    pub mint_y: Pubkey,
    /// Trading fee in basis points.
    pub fee: u16,
    /// While set, deposit, withdraw and swap are refused.
    pub locked: bool,
    /// Derivation bump of the pool's own address.
    pub config_bump: u8,
    /// Derivation bump of the liquidity-share asset's address.
    pub liquidity_pool_bump: u8,
}

impl Config {
    /// A well-formed pool: a fee of at most 10000 basis points, and two
    /// distinct assets.
    pub open spec fn wf(&self) -> bool {
        &&& self.fee <= 10000
        &&& self.mint_x.bytes@ != self.mint_y.bytes@
    }
}

/// A snapshot of the ledger's balances for one pool: the two vaults'
/// reserves and the liquidity-share supply.
#[derive(Clone, Copy, Debug, PartialEq, Eq, Structural)]
pub struct Reserves {
    pub x: u64,
    pub y: u64,
    pub supply: u64,
}

impl Reserves {
    /// A pool that holds nothing and has issued no shares: its next deposit
    /// bootstraps it.
    pub open spec fn is_empty(&self) -> bool {
        self.supply == 0 && self.x == 0 && self.y == 0
    }
}

} // verus!
