//! The escrow record, the vault that holds it, and the wallets of the
//! parties.

use crate::identity::Identity;
use vstd::prelude::*;

verus! {

/// The record of one trade offer.
///
/// `maker`, `escrow_id`, the two amounts, `expiry_ts` and `bump` are set
/// when the record is created and never change. The three flags and
/// `taker` follow the life of the offer: open, funded, and then
/// completed, cancelled or refunded.
#[derive(Clone, Copy, Debug, PartialEq, Eq)]
pub struct EscrowAccount {
    /// The party that opened the escrow and made the first deposit.
    pub maker: Identity,
    /// The party that may accept the offer; cleared when the swap completes.
    pub taker: Option<Identity>,
    /// The maker's sequence number of this escrow.
    pub escrow_id: u64,
    /// What the maker deposited.
    pub amount_a: u64,
    /// What the taker must deposit.
    pub amount_b_expected: u64,
    /// The taker's deposit is in the vault.
    pub is_funded: bool,
    /// The offer has not reached an outcome yet.
    pub is_active: bool,
    /// The swap was carried out.
    pub is_completed: bool,
    /// From this time on the offer can no longer be accepted; after it,
    /// the maker may reclaim an unfunded deposit.
    pub expiry_ts: i64,
    /// The nonce with which the record's identity was derived.
    pub bump: u8,
}

impl EscrowAccount {
    /// What holds of every record that the operations produce: both
    /// amounts are positive, a completed record is neither active nor
    /// funded, only an active record is funded, and an active record
    /// names its taker.
    pub open spec fn well_formed(self) -> bool {
        &&& self.amount_a > 0
        &&& self.amount_b_expected > 0
        &&& self.is_completed ==> !self.is_active && !self.is_funded
        &&& self.is_funded ==> self.is_active
        &&& self.is_active ==> self.taker is Some
    }

    /// The record has reached an outcome: no operation applies to it any
    /// more.
    pub open spec fn is_terminal(self) -> bool {
        !self.is_active
    }

    /// The value that the vault holds for the parties of this record: the
    /// maker's deposit while the offer is open, both deposits once it is
    /// funded, nothing after the outcome.
    pub open spec fn owed(self) -> nat {
        if !self.is_active {
            0
        } else if self.is_funded {
            (self.amount_a + self.amount_b_expected) as nat
        } else {
            self.amount_a as nat
        }
    }

    /// The fields that are fixed at creation are the same in both records.
    pub open spec fn same_terms(self, other: EscrowAccount) -> bool {
        &&& self.maker == other.maker
        &&& self.escrow_id == other.escrow_id
        &&& self.amount_a == other.amount_a
        &&& self.amount_b_expected == other.amount_b_expected
        &&& self.expiry_ts == other.expiry_ts
        &&& self.bump == other.bump
    }

    /// The number of bytes of a stored record: an 8-byte prefix, the
    /// encoded fields, and 128 spare bytes.
    pub open spec fn max_space() -> nat {
        let prefix: nat = 8;
        let maker: nat = 32;
        let taker: nat = 1 + 32;
        let escrow_id: nat = 8;
        let amounts: nat = 8 + 8;
        let flags: nat = 1 + 1 + 1;
        let expiry_ts: nat = 8;
        let bump: nat = 1;
        let spare: nat = 128;
        prefix + maker + taker + escrow_id + amounts + flags + expiry_ts + bump + spare
    }

    /// The number of bytes to reserve for a stored record.
    pub fn calculate_max_space() -> (size: usize)
        ensures
            size == Self::max_space(),
            size == 237,
    {
        // prefix
        let mut size: usize = 8;
        // maker
        size += 32;
        // taker: one byte for the option, then the identity
        size += 1 + 32;
        // escrow_id
        size += 8;
        // amounts
        size += 8 + 8;
        // is_funded, is_active, is_completed
        size += 1 + 1 + 1;
        // expiry_ts
        size += 8;
        // bump
        size += 1;
        // spare
        size += 128;
        size
    }
}

/// The account of a party: who it belongs to and what it holds.
#[derive(Clone, Copy, Debug, PartialEq, Eq)]
pub struct Wallet {
    pub key: Identity,
    pub lamports: u64,
}

/// The account of an escrow: its identity, the value it holds, and the
/// record, once one has been created.
#[derive(Clone, Copy, Debug, PartialEq, Eq)]
pub struct EscrowVault {
    pub key: Identity,
    pub lamports: u64,
    pub data: Option<EscrowAccount>,
}

impl EscrowVault {
    /// The value that the vault holds for the parties of its record.
    pub open spec fn owed(self) -> nat {
        match self.data {
            Some(record) => record.owed(),
            None => 0,
        }
    }

    /// What the vault holds beyond the deposits of its record. No
    /// operation changes it.
    pub open spec fn reserve(self) -> int {
        self.lamports - self.owed()
    }

    /// The vault holds at least what it owes, and its record, if any, is
    /// well formed.
    pub open spec fn well_formed(self) -> bool {
        &&& self.lamports >= self.owed()
        &&& self.data matches Some(record) ==> record.well_formed()
    }

    /// A vault without a record.
    pub fn vacant(key: Identity, lamports: u64) -> (vault: EscrowVault)
        ensures
            vault == (EscrowVault { key, lamports, data: None }),
    {
        EscrowVault { key, lamports, data: None }
    }
}

} // verus!
