use vstd::prelude::*;
use crate::rules::transfer_verdict;
use crate::types::{Address, DataKey, Transaction, TransferError};

verus! {

/// The mathematical content of a ledger: which accounts carry a freeze
/// flag, which balances are stored and which histories are stored, each
/// keyed by the account's `id`. Balances are unbounded integers here.
pub struct LedgerState {
    pub frozen: Set<u64>,
    pub balances: Map<u64, int>,
    pub histories: Map<u64, Seq<Transaction>>,
}

/// One call made on a ledger.
pub enum Operation {
    Freeze(Address),
    Unfreeze(Address),
    SetBalance(Address, i128),
    Transfer { from: Address, to: Address, amount: i128, timestamp: u64 },
}

impl LedgerState {
    /// The ledger on which nothing was ever stored.
    pub open spec fn empty() -> LedgerState {
        LedgerState { frozen: Set::empty(), balances: Map::empty(), histories: Map::empty() }
    }

    /// Whether an entry is stored under `key`.
    pub open spec fn holds(self, key: DataKey) -> bool {
        match key {
            DataKey::FrozenAccount(a) => self.frozen.contains(a.id),
            DataKey::Balance(a) => self.balances.contains_key(a.id),
            DataKey::TransactionHistory(a) => self.histories.contains_key(a.id),
        }
    }

    /// An account is frozen exactly while a freeze flag is stored for it.
    pub open spec fn is_frozen(self, account: Address) -> bool {
        self.frozen.contains(account.id)
    }

    /// The stored balance, or zero where none is stored.
    pub open spec fn balance(self, account: Address) -> int {
        if self.balances.contains_key(account.id) {
            self.balances[account.id]
        } else {
            0
        }
    }

    /// The stored history, or the empty sequence where none is stored.
    pub open spec fn history(self, account: Address) -> Seq<Transaction> {
        if self.histories.contains_key(account.id) {
            self.histories[account.id]
        } else {
            Seq::empty()
        }
    }

    pub open spec fn freeze(self, account: Address) -> LedgerState {
        LedgerState { frozen: self.frozen.insert(account.id), ..self }
    }

    pub open spec fn unfreeze(self, account: Address) -> LedgerState {
        LedgerState { frozen: self.frozen.remove(account.id), ..self }
    }

    pub open spec fn set_balance(self, account: Address, amount: int) -> LedgerState {
        LedgerState { balances: self.balances.insert(account.id, amount), ..self }
    }

    /// The ledger with `record` added at the tail of `account`'s history.
    pub open spec fn append(self, account: Address, record: Transaction) -> LedgerState {
        LedgerState {
            histories: self.histories.insert(account.id, self.history(account).push(record)),
            ..self
        }
    }

    /// Whether a transfer is accepted on this ledger, and if not, why.
    pub open spec fn verdict(self, from: Address, to: Address, amount: int) -> Result<
        (),
        TransferError,
    > {
        transfer_verdict(
            from == to,
            amount,
            self.is_frozen(from),
            self.is_frozen(to),
            self.balance(from),
        )
    }

    /// The ledger after an accepted transfer: the amount has moved from
    /// the sender to the recipient, and one record of it stands at the
    /// tail of both histories.
    pub open spec fn transfer(
        self,
        from: Address,
        to: Address,
        amount: i128,
        timestamp: u64,
    ) -> LedgerState {
        let record = Transaction { from, to, amount, timestamp };
        self.set_balance(from, self.balance(from) - amount).set_balance(
            to,
            self.balance(to) + amount,
        ).append(from, record).append(to, record)
    }

    /// The ledger after one call. A refused transfer leaves it as it was.
    pub open spec fn apply(self, op: Operation) -> LedgerState {
        match op {
            Operation::Freeze(a) => self.freeze(a),
            Operation::Unfreeze(a) => self.unfreeze(a),
            Operation::SetBalance(a, amount) => self.set_balance(a, amount as int),
            Operation::Transfer { from, to, amount, timestamp } => {
                if self.verdict(from, to, amount as int) is Ok {
                    self.transfer(from, to, amount, timestamp)
                } else {
                    self
                }
            },
        }
    }

    /// The ledger after a sequence of calls, made in order.
    pub open spec fn run(self, ops: Seq<Operation>) -> LedgerState
        decreases ops.len(),
    {
        if ops.len() == 0 {
            self
        } else {
            self.run(ops.drop_last()).apply(ops.last())
        }
    }

    /// Every stored record is of a transfer that could be committed: a
    /// positive amount between two different accounts. It is stored under
    /// one of its two parties, and stands in the histories of both.
    pub open spec fn records_sound(self) -> bool {
        forall|id: u64, i: int|
            self.histories.contains_key(id) && 0 <= i < self.histories[id].len() ==> {
                let record = #[trigger] self.histories[id][i];
                &&& record.amount > 0
                &&& record.from != record.to
                &&& (record.from.id == id || record.to.id == id)
                &&& self.history(record.from).contains(record)
                &&& self.history(record.to).contains(record)
            }
    }

    /// The sum of the balances of the listed accounts.
    pub open spec fn total(self, accounts: Seq<Address>) -> int
        decreases accounts.len(),
    {
        if accounts.len() == 0 {
            0
        } else {
            self.total(accounts.drop_last()) + self.balance(accounts.last())
        }
    }
}

} // verus!
