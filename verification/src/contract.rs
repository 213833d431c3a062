use vstd::prelude::*;
use std::collections::HashMap;
use crate::model::LedgerState;
use crate::rules::{check_transfer, fits, settle, stored_balance, stored_flag};
use crate::types::{Address, DataKey, Transaction, TransferError};

verus! {

broadcast use vstd::std_specs::hash::group_hash_axioms;

/// The store that the operations read and write: freeze flags, balances
/// and histories, each keyed by account.
pub struct Ledger {
    frozen: HashMap<u64, bool>,
    balances: HashMap<u64, i128>,
    histories: HashMap<u64, Vec<Transaction>>,
}

impl View for Ledger {
    type V = LedgerState;

    closed spec fn view(&self) -> LedgerState {
        LedgerState {
            frozen: Set::new(|id: u64| self.frozen@.contains_key(id) && self.frozen@[id]),
            balances: self.balances@.map_values(|b: i128| b as int),
            histories: self.histories@.map_values(|h: Vec<Transaction>| h@),
        }
    }
}

impl Ledger {
    /// A store that holds nothing.
    pub fn new() -> (ledger: Ledger)
        ensures
            ledger@ == LedgerState::empty(),
    {
        let ledger = Ledger {
            frozen: HashMap::new(),
            balances: HashMap::new(),
            histories: HashMap::new(),
        };
        proof {
            assert(ledger@.frozen =~= Set::empty());
            assert(ledger@.balances =~= Map::empty());
            assert(ledger@.histories =~= Map::empty());
        }
        ledger
    }

    /// Whether an entry is stored under `key`.
    pub fn has(&self, key: DataKey) -> (present: bool)
        ensures
            present == self@.holds(key),
    {
        match key {
            DataKey::FrozenAccount(a) => AccountFreezeContract::is_account_frozen(self, a),
            DataKey::Balance(a) => self.balances.contains_key(&a.id),
            DataKey::TransactionHistory(a) => self.histories.contains_key(&a.id),
        }
    }

    /// Every stored balance is a machine integer.
    pub proof fn lemma_balance_in_range(&self, account: Address)
        ensures
            i128::MIN <= self@.balance(account) <= i128::MAX,
    {
    }

    fn write_balance(&mut self, account: Address, amount: i128)
        ensures
            final(self)@ == old(self)@.set_balance(account, amount as int),
    {
        self.balances.insert(account.id, amount);
        proof {
            assert(final(self)@.balances =~= old(self)@.balances.insert(
                account.id,
                amount as int,
            ));
        }
    }

    fn add_to_history(&mut self, account: Address, transaction: Transaction)
        ensures
            final(self)@ == old(self)@.append(account, transaction),
    {
        let mut history = match self.histories.remove(&account.id) {
            Some(stored) => stored,
            None => Vec::new(),
        };
        assert(history@ == old(self)@.history(account));
        history.push(transaction);
        self.histories.insert(account.id, history);
        proof {
            assert(final(self)@.histories =~= old(self)@.histories.insert(
                account.id,
                old(self)@.history(account).push(transaction),
            ));
        }
    }
}

/// The ledger's operations. Each reads the store, validates, and writes
/// the new state; a refused call writes nothing.
pub struct AccountFreezeContract;

impl AccountFreezeContract {
    /// Stores the freeze flag of `account`.
    pub fn freeze_account(env: &mut Ledger, account: Address)
        ensures
            final(env)@ == old(env)@.freeze(account),
    {
        env.frozen.insert(account.id, true);
        proof {
            assert(final(env)@.frozen =~= old(env)@.frozen.insert(account.id));
        }
    }

    /// Removes the freeze flag of `account`.
    pub fn unfreeze_account(env: &mut Ledger, account: Address)
        ensures
            final(env)@ == old(env)@.unfreeze(account),
    {
        env.frozen.remove(&account.id);
        proof {
            assert(final(env)@.frozen =~= old(env)@.frozen.remove(account.id));
        }
    }

    /// Whether `account` is frozen.
    pub fn is_account_frozen(env: &Ledger, account: Address) -> (frozen: bool)
        ensures
            frozen == env@.is_frozen(account),
    {
        match env.frozen.get(&account.id) {
            Some(stored) => stored_flag(Some(*stored)),
            None => stored_flag(None),
        }
    }

    /// Overwrites the balance of `account`, whatever `amount` is.
    pub fn set_balance(env: &mut Ledger, account: Address, amount: i128)
        ensures
            final(env)@ == old(env)@.set_balance(account, amount as int),
    {
        env.write_balance(account, amount);
    }

    /// The balance of `account`: zero where none is stored.
    pub fn get_balance(env: &Ledger, account: Address) -> (balance: i128)
        ensures
            balance == env@.balance(account),
    {
        match env.balances.get(&account.id) {
            Some(stored) => stored_balance(Some(*stored)),
            None => stored_balance(None),
        }
    }

    /// Whether the recipient's balance can take the amount of a transfer
    /// that would be accepted. `transfer` asks for this.
    pub open spec fn payable(state: LedgerState, from: Address, to: Address, amount: i128) -> bool {
        state.verdict(from, to, amount as int) is Ok ==> state.balance(to) + amount <= i128::MAX
    }

    /// Moves `amount` from `from` to `to` and records the transfer, stamped
    /// with `timestamp`, at the tail of both histories; or refuses, and
    /// then leaves the store as it was.
    pub fn transfer(
        env: &mut Ledger,
        from: Address,
        to: Address,
        amount: i128,
        timestamp: u64,
    ) -> (outcome: Result<(), TransferError>)
        requires
            Self::payable(old(env)@, from, to, amount),
        ensures
            outcome == old(env)@.verdict(from, to, amount as int),
            outcome is Ok ==> final(env)@ == old(env)@.transfer(from, to, amount, timestamp),
            outcome is Err ==> final(env)@ == old(env)@,
    {
        let sender_frozen = Self::is_account_frozen(env, from);
        let recipient_frozen = Self::is_account_frozen(env, to);
        let from_balance = Self::get_balance(env, from);
        match check_transfer(from == to, amount, sender_frozen, recipient_frozen, from_balance) {
            Err(e) => Err(e),
            Ok(()) => {
                let to_balance = Self::get_balance(env, to);
                let after = settle(from_balance, to_balance, amount);
                env.write_balance(from, after.0);
                env.write_balance(to, after.1);
                let transaction = Transaction { from, to, amount, timestamp };
                env.add_to_history(from, transaction);
                env.add_to_history(to, transaction);
                Ok(())
            },
        }
    }

    /// Makes the transfer where the recipient's balance can take it, and
    /// says `None`, leaving the store as it was, where it cannot.
    pub fn try_transfer(
        env: &mut Ledger,
        from: Address,
        to: Address,
        amount: i128,
        timestamp: u64,
    ) -> (outcome: Option<Result<(), TransferError>>)
        ensures
            outcome is Some <==> Self::payable(old(env)@, from, to, amount),
            outcome is Some ==> outcome->0 == old(env)@.verdict(from, to, amount as int),
            outcome == Some(Ok::<(), TransferError>(())) ==> final(env)@ == old(env)@.transfer(
                from,
                to,
                amount,
                timestamp,
            ),
            outcome != Some(Ok::<(), TransferError>(())) ==> final(env)@ == old(env)@,
    {
        let sender_frozen = Self::is_account_frozen(env, from);
        let recipient_frozen = Self::is_account_frozen(env, to);
        let from_balance = Self::get_balance(env, from);
        let to_balance = Self::get_balance(env, to);
        let accepted = check_transfer(
            from == to,
            amount,
            sender_frozen,
            recipient_frozen,
            from_balance,
        ).is_ok();
        if accepted && !fits(to_balance, amount) {
            None
        } else {
            Some(Self::transfer(env, from, to, amount, timestamp))
        }
    }

    /// The history of `account`, oldest record first: empty where none is stored.
    pub fn get_transaction_history(env: &Ledger, account: Address) -> (history: Vec<Transaction>)
        ensures
            history@ == env@.history(account),
    {
        let mut history: Vec<Transaction> = Vec::new();
        match env.histories.get(&account.id) {
            Some(stored) => {
                let mut i: usize = 0;
                while i < stored.len()
                    invariant
                        i <= stored.len(),
                        history@ == stored@.subrange(0, i as int),
                    decreases stored.len() - i,
                {
                    history.push(stored[i]);
                    i += 1;
                    proof {
                        assert(history@ =~= stored@.subrange(0, i as int));
                    }
                }
                proof {
                    assert(stored@.subrange(0, i as int) =~= stored@);
                }
            },
            None => {},
        }
        history
    }
}

} // verus!
