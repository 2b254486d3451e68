use vstd::prelude::*;

verus! {

/// A 32-byte transaction hash, held as two 128-bit halves.
#[derive(Clone, Copy, Debug, PartialEq, Eq, Structural)]
pub struct TxHash {
    pub hi: u128,
    pub lo: u128,
}

/// A 20-byte account address, held as a 32-bit high part and a 128-bit low part.
#[derive(Clone, Copy, Debug, PartialEq, Eq, Structural)]
pub struct Address {
    pub hi: u32,
    pub lo: u128,
}

/// A 256-bit unsigned word, held as two 128-bit halves.
#[derive(Clone, Copy, Debug, PartialEq, Eq, Structural)]
pub struct Word {
    pub hi: u128,
    pub lo: u128,
}

impl Word {
    /// The number that the word stands for.
    pub open spec fn value(self) -> nat {
        (self.hi as nat) * 0x1_0000_0000_0000_0000_0000_0000_0000_0000 + (self.lo as nat)
    }

    /// The word zero.
    pub fn zero() -> (r: Word)
        ensures
            r.value() == 0,
            r == (Word { hi: 0, lo: 0 }),
    {
        Word { hi: 0, lo: 0 }
    }

    /// The word that holds a 64-bit number.
    pub fn from_u64(n: u64) -> (r: Word)
        ensures
            r.value() == n as nat,
            r == (Word { hi: 0, lo: n as u128 }),
    {
        Word { hi: 0, lo: n as u128 }
    }
}

/// What the replay needs to know of one transaction.
#[derive(Clone, Copy, Debug, PartialEq, Eq, Structural)]
pub struct TxRecord {
    pub hash: TxHash,
    /// Whether the sender is one of the chain's known system senders.
    pub from_system_sender: bool,
    /// The recipient; none for a contract creation.
    pub to: Option<Address>,
    /// The transaction-type tag, where the transaction carries one.
    pub tx_type: Option<u64>,
    /// The block the transaction was mined in; none while it is pending.
    pub block_number: Option<u64>,
}

/// How a transaction is executed: as a call of existing code, or as a creation.
#[derive(Clone, Copy, Debug, PartialEq, Eq, Structural)]
pub enum TxKind {
    Call,
    Create,
}

impl TxRecord {
    /// A system transaction: its sender is a known system sender, or its type tag
    /// is the reserved system type.
    pub open spec fn is_system(self, system_type: u64) -> bool {
        self.from_system_sender || self.tx_type == Some(system_type)
    }

    pub open spec fn kind_spec(self) -> TxKind {
        if self.to.is_some() {
            TxKind::Call
        } else {
            TxKind::Create
        }
    }

    /// Whether this is a system transaction, given the reserved system type tag.
    pub fn is_system_tx(&self, system_type: u64) -> (r: bool)
        ensures
            r == self.is_system(system_type),
    {
        if self.from_system_sender {
            return true;
        }
        match self.tx_type {
            Some(t) => t == system_type,
            None => false,
        }
    }

    /// A transaction with a recipient is a call; one without is a creation.
    pub fn kind(&self) -> (r: TxKind)
        ensures
            r == self.kind_spec(),
    {
        match self.to {
            Some(_) => TxKind::Call,
            None => TxKind::Create,
        }
    }
}

/// Why a run stops without a result for the target transaction.
#[derive(Clone, Copy, Debug, PartialEq, Eq, Structural)]
pub enum ReplayError {
    /// No transaction with the requested hash was found.
    NotFound { hash: TxHash },
    /// The transaction has no block yet.
    Pending { hash: TxHash },
    /// System transactions are not replayed.
    SystemTransaction { hash: TxHash },
    /// The block's transactions were not handed over in full.
    MissingBlockTransactions { block: u64 },
    /// A prior call failed; nothing after it can be trusted.
    PriorCallFailed { hash: TxHash, block: u64 },
    /// A prior creation failed with more than a revert.
    PriorCreateFailed { hash: TxHash, block: u64 },
    /// The target call failed to execute.
    TargetCallFailed { hash: TxHash, block: u64 },
    /// The target creation failed with more than a revert.
    TargetCreateFailed { hash: TxHash, block: u64 },
}

} // verus!
