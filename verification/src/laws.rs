use vstd::prelude::*;
use crate::model::{LedgerState, Operation};
use crate::types::{Address, Transaction, TransferError};

verus! {

/// Whether `op` is a call of `freeze` on `account`.
pub open spec fn freezes(op: Operation, account: Address) -> bool {
    op == Operation::Freeze(account)
}

/// Whether `op` is a call of `unfreeze` on `account`.
pub open spec fn unfreezes(op: Operation, account: Address) -> bool {
    op == Operation::Unfreeze(account)
}

/// Whether `op`, made on `state`, is a `set_balance` on `account` or an
/// accepted transfer that `account` is party to.
pub open spec fn touches_balance(state: LedgerState, op: Operation, account: Address) -> bool {
    match op {
        Operation::SetBalance(a, _) => a == account,
        Operation::Transfer { from, to, amount, .. } => (from == account || to == account)
            && state.verdict(from, to, amount as int) is Ok,
        _ => false,
    }
}

/// Whether none of the calls `ops`, made in order from `state`, touches
/// the balance of `account`.
pub open spec fn balance_untouched(
    state: LedgerState,
    ops: Seq<Operation>,
    account: Address,
) -> bool
    decreases ops.len(),
{
    ops.len() == 0 || (balance_untouched(state, ops.drop_last(), account) && !touches_balance(
        state.run(ops.drop_last()),
        ops.last(),
        account,
    ))
}

/// Whether `op` is a change of a freeze flag, or a transfer between two of
/// the listed accounts.
pub open spec fn stays_within(op: Operation, accounts: Seq<Address>) -> bool {
    match op {
        Operation::Transfer { from, to, .. } => accounts.contains(from) && accounts.contains(to),
        Operation::SetBalance(_, _) => false,
        _ => true,
    }
}

/// On a ledger that nothing was stored on, no account is frozen, every
/// balance is zero and every history is empty.
pub proof fn lemma_empty_defaults(account: Address)
    ensures
        !LedgerState::empty().is_frozen(account),
        LedgerState::empty().balance(account) == 0,
        LedgerState::empty().history(account) == Seq::<Transaction>::empty(),
{
}

/// `freeze` sets the flag of its account and `unfreeze` clears it; neither
/// touches the flag of another account, a balance or a history.
pub proof fn lemma_freeze_flag(state: LedgerState, account: Address, other: Address)
    ensures
        state.freeze(account).is_frozen(account),
        !state.unfreeze(account).is_frozen(account),
        other != account ==> state.freeze(account).is_frozen(other) == state.is_frozen(other),
        other != account ==> state.unfreeze(account).is_frozen(other) == state.is_frozen(other),
        state.freeze(account).balances == state.balances,
        state.freeze(account).histories == state.histories,
        state.unfreeze(account).balances == state.balances,
        state.unfreeze(account).histories == state.histories,
{
}

/// A call that is not `freeze` or `unfreeze` of `account` leaves the
/// account's flag as it was.
pub proof fn lemma_flag_kept(state: LedgerState, op: Operation, account: Address)
    requires
        !freezes(op, account),
        !unfreezes(op, account),
    ensures
        state.apply(op).is_frozen(account) == state.is_frozen(account),
{
}

/// An account that is not frozen stays so through any calls among which
/// there is no `freeze` of it. From the empty ledger, then: an account is
/// not frozen until `freeze` is called on it.
pub proof fn lemma_unfrozen_until_freeze(state: LedgerState, ops: Seq<Operation>, account: Address)
    requires
        !state.is_frozen(account),
        forall|i: int| 0 <= i < ops.len() ==> !freezes(#[trigger] ops[i], account),
    ensures
        !state.run(ops).is_frozen(account),
    decreases ops.len(),
{
    if ops.len() > 0 {
        lemma_unfrozen_until_freeze(state, ops.drop_last(), account);
        assert(!freezes(ops[ops.len() - 1], account));
    }
}

/// A frozen account stays frozen through any calls among which there is
/// no `unfreeze` of it.
pub proof fn lemma_frozen_until_unfreeze(state: LedgerState, ops: Seq<Operation>, account: Address)
    requires
        state.is_frozen(account),
        forall|i: int| 0 <= i < ops.len() ==> !unfreezes(#[trigger] ops[i], account),
    ensures
        state.run(ops).is_frozen(account),
    decreases ops.len(),
{
    if ops.len() > 0 {
        lemma_frozen_until_unfreeze(state, ops.drop_last(), account);
        assert(!unfreezes(ops[ops.len() - 1], account));
    }
}

/// A balance changes only by a `set_balance` on its account or by an
/// accepted transfer that the account is party to: through any other calls
/// it stays what it was, so zero on a ledger that started empty.
pub proof fn lemma_balance_untouched(state: LedgerState, ops: Seq<Operation>, account: Address)
    requires
        balance_untouched(state, ops, account),
    ensures
        state.run(ops).balance(account) == state.balance(account),
        state == LedgerState::empty() ==> state.run(ops).balance(account) == 0,
    decreases ops.len(),
{
    if ops.len() > 0 {
        lemma_balance_untouched(state, ops.drop_last(), account);
    }
}

/// A refused transfer changes nothing, whoever its parties are.
pub proof fn lemma_refused_transfer_keeps_state(
    state: LedgerState,
    from: Address,
    to: Address,
    amount: i128,
    timestamp: u64,
)
    requires
        state.verdict(from, to, amount as int) is Err,
    ensures
        state.apply(Operation::Transfer { from, to, amount, timestamp }) == state,
{
}

/// An accepted transfer takes the amount from the sender's balance, adds
/// it to the recipient's, and puts one and the same record at the tail of
/// both histories. Nothing else changes.
pub proof fn lemma_transfer_effect(
    state: LedgerState,
    from: Address,
    to: Address,
    amount: i128,
    timestamp: u64,
    other: Address,
)
    requires
        state.verdict(from, to, amount as int) is Ok,
    ensures
        ({
            let after = state.transfer(from, to, amount, timestamp);
            let record = Transaction { from, to, amount, timestamp };
            &&& after.balance(from) == state.balance(from) - amount
            &&& after.balance(to) == state.balance(to) + amount
            &&& after.history(from) == state.history(from).push(record)
            &&& after.history(to) == state.history(to).push(record)
            &&& after.frozen == state.frozen
            &&& other != from && other != to ==> after.balance(other) == state.balance(other)
                && after.history(other) == state.history(other)
        }),
{
}

/// Histories are append-only: whatever calls are made, the history that
/// an account had stays, in its order, at the head of the history it has.
pub proof fn lemma_history_append_only(state: LedgerState, ops: Seq<Operation>, account: Address)
    ensures
        state.history(account).is_prefix_of(state.run(ops).history(account)),
    decreases ops.len(),
{
    if ops.len() > 0 {
        lemma_history_append_only(state, ops.drop_last(), account);
        let before = state.run(ops.drop_last());
        lemma_history_grows(before, ops.last(), account);
    }
}

/// One call leaves each history as it was or adds to its tail.
pub proof fn lemma_history_grows(state: LedgerState, op: Operation, account: Address)
    ensures
        state.history(account).is_prefix_of(state.apply(op).history(account)),
{
}

/// The records of an empty ledger are sound, and every call keeps them so:
/// each stored record has a positive amount and two different parties, is
/// stored under one of them, and stands in the histories of both.
pub proof fn lemma_records_sound_kept(state: LedgerState, op: Operation)
    requires
        state.records_sound(),
    ensures
        LedgerState::empty().records_sound(),
        state.apply(op).records_sound(),
{
    let after = state.apply(op);
    assert forall|id: u64, i: int|
        after.histories.contains_key(id) && 0 <= i < after.histories[id].len() implies ({
        let record = #[trigger] after.histories[id][i];
        &&& record.amount > 0
        &&& record.from != record.to
        &&& (record.from.id == id || record.to.id == id)
        &&& after.history(record.from).contains(record)
        &&& after.history(record.to).contains(record)
    }) by {
        let record = after.histories[id][i];
        let holder = Address { id };
        lemma_history_grows(state, op, holder);
        if i < state.history(holder).len() {
            assert(state.histories[id][i] == record);
            lemma_history_grows(state, op, record.from);
            lemma_history_grows(state, op, record.to);
            lemma_prefix_contains(state.history(record.from), after.history(record.from), record);
            lemma_prefix_contains(state.history(record.to), after.history(record.to), record);
        } else {
            match op {
                Operation::Transfer { from, to, amount, timestamp } => {
                    let made = Transaction { from, to, amount, timestamp };
                    assert(after.history(from) == state.history(from).push(made));
                    assert(after.history(to) == state.history(to).push(made));
                    assert(after.history(from).last() == made);
                    assert(after.history(to).last() == made);
                },
                _ => {},
            }
        }
    }
}

/// Every ledger reached from a sound one by calls has sound records.
pub proof fn lemma_run_keeps_records_sound(state: LedgerState, ops: Seq<Operation>)
    requires
        state.records_sound(),
    ensures
        state.run(ops).records_sound(),
    decreases ops.len(),
{
    if ops.len() > 0 {
        lemma_run_keeps_records_sound(state, ops.drop_last());
        lemma_records_sound_kept(state.run(ops.drop_last()), ops.last());
    }
}

proof fn lemma_prefix_contains(head: Seq<Transaction>, whole: Seq<Transaction>, record: Transaction)
    requires
        head.is_prefix_of(whole),
        head.contains(record),
    ensures
        whole.contains(record),
{
    let i = choose|i: int| 0 <= i < head.len() && head[i] == record;
    assert(whole[i] == record);
}

/// What a transfer does to the sum over a list of distinct accounts: the
/// amount leaves it if the sender is listed and enters it if the recipient is.
pub proof fn lemma_transfer_total(
    state: LedgerState,
    from: Address,
    to: Address,
    amount: i128,
    timestamp: u64,
    accounts: Seq<Address>,
)
    requires
        from != to,
        accounts.no_duplicates(),
    ensures
        state.transfer(from, to, amount, timestamp).total(accounts) == state.total(accounts) - (
        if accounts.contains(from) {
            amount as int
        } else {
            0
        }) + (if accounts.contains(to) {
            amount as int
        } else {
            0
        }),
    decreases accounts.len(),
{
    if accounts.len() > 0 {
        let rest = accounts.drop_last();
        let last = accounts.last();
        lemma_transfer_total(state, from, to, amount, timestamp, rest);
        assert(forall|a: Address| rest.contains(a) ==> accounts.contains(a)) by {
            assert forall|a: Address| rest.contains(a) implies accounts.contains(a) by {
                let i = choose|i: int| 0 <= i < rest.len() && rest[i] == a;
                assert(accounts[i] == a);
            }
        }
        assert(!rest.contains(last)) by {
            if rest.contains(last) {
                let i = choose|i: int| 0 <= i < rest.len() && rest[i] == last;
                assert(accounts[i] == accounts[accounts.len() - 1]);
            }
        }
        assert(forall|a: Address| accounts.contains(a) ==> a == last || rest.contains(a)) by {
            assert forall|a: Address| accounts.contains(a) implies a == last || rest.contains(
                a,
            ) by {
                let i = choose|i: int| 0 <= i < accounts.len() && accounts[i] == a;
                if i < accounts.len() - 1 {
                    assert(rest[i] == a);
                }
            }
        }
        assert(accounts.contains(last)) by {
            assert(accounts[accounts.len() - 1] == last);
        }
    }
}

/// The sum over a list of accounts depends on the stored balances alone.
pub proof fn lemma_total_of_balances(first: LedgerState, second: LedgerState, accounts: Seq<Address>)
    requires
        first.balances == second.balances,
    ensures
        first.total(accounts) == second.total(accounts),
    decreases accounts.len(),
{
    if accounts.len() > 0 {
        lemma_total_of_balances(first, second, accounts.drop_last());
    }
}

/// Conservation: transfers among the accounts of a list, whether accepted
/// or refused, and changes of freeze flags between them, leave the sum of
/// the list's balances unchanged.
pub proof fn lemma_conservation(state: LedgerState, ops: Seq<Operation>, accounts: Seq<Address>)
    requires
        accounts.no_duplicates(),
        forall|i: int| 0 <= i < ops.len() ==> stays_within(#[trigger] ops[i], accounts),
    ensures
        state.run(ops).total(accounts) == state.total(accounts),
    decreases ops.len(),
{
    if ops.len() > 0 {
        lemma_conservation(state, ops.drop_last(), accounts);
        let before = state.run(ops.drop_last());
        let op = ops[ops.len() - 1];
        assert(stays_within(op, accounts));
        match op {
            Operation::Transfer { from, to, amount, timestamp } => {
                if before.verdict(from, to, amount as int) is Ok {
                    lemma_transfer_total(before, from, to, amount, timestamp, accounts);
                }
            },
            Operation::Freeze(a) => {
                lemma_total_of_balances(before.freeze(a), before, accounts);
            },
            Operation::Unfreeze(a) => {
                lemma_total_of_balances(before.unfreeze(a), before, accounts);
            },
            Operation::SetBalance(_, _) => {},
        }
    }
}

/// A transfer from an account to itself is refused as invalid, whatever
/// the amount and the balances.
pub proof fn lemma_self_transfer_invalid(state: LedgerState, account: Address, amount: int)
    ensures
        state.verdict(account, account, amount) == Err::<(), TransferError>(
            TransferError::InvalidTransfer,
        ),
{
}

/// A transfer of nothing, or of a negative amount, is refused as invalid.
pub proof fn lemma_nonpositive_amount_invalid(
    state: LedgerState,
    from: Address,
    to: Address,
    amount: int,
)
    requires
        amount <= 0,
    ensures
        state.verdict(from, to, amount) == Err::<(), TransferError>(TransferError::InvalidTransfer),
{
}

/// A transfer of a positive amount between two accounts is refused for
/// its frozen sender, whatever holds of the recipient and the balances.
pub proof fn lemma_frozen_sender_refused(
    state: LedgerState,
    from: Address,
    to: Address,
    amount: int,
)
    requires
        from != to,
        amount > 0,
        state.is_frozen(from),
    ensures
        state.verdict(from, to, amount) == Err::<(), TransferError>(TransferError::FrozenSender),
{
}

/// With the sender free, a transfer of a positive amount between two
/// accounts is refused for its frozen recipient.
pub proof fn lemma_frozen_recipient_refused(
    state: LedgerState,
    from: Address,
    to: Address,
    amount: int,
)
    requires
        from != to,
        amount > 0,
        !state.is_frozen(from),
        state.is_frozen(to),
    ensures
        state.verdict(from, to, amount) == Err::<(), TransferError>(TransferError::FrozenRecipient),
{
}

/// With neither party frozen, a transfer of a positive amount that the
/// sender does not hold is refused for insufficient balance.
pub proof fn lemma_insufficient_balance_refused(
    state: LedgerState,
    from: Address,
    to: Address,
    amount: int,
)
    requires
        from != to,
        amount > 0,
        !state.is_frozen(from),
        !state.is_frozen(to),
        state.balance(from) < amount,
    ensures
        state.verdict(from, to, amount) == Err::<(), TransferError>(
            TransferError::InsufficientBalance,
        ),
{
}

/// A transfer is accepted exactly when the parties differ, the amount is
/// positive, neither party is frozen and the sender holds the amount.
pub proof fn lemma_accepted_iff(state: LedgerState, from: Address, to: Address, amount: int)
    ensures
        state.verdict(from, to, amount) is Ok <==> from != to && amount > 0 && !state.is_frozen(from)
            && !state.is_frozen(to) && state.balance(from) >= amount,
{
}

/// Freezing twice is freezing once, and unfreezing twice is unfreezing once.
pub proof fn lemma_freeze_idempotent(state: LedgerState, account: Address)
    ensures
        state.freeze(account).freeze(account) == state.freeze(account),
        state.unfreeze(account).unfreeze(account) == state.unfreeze(account),
{
    assert(state.freeze(account).freeze(account).frozen =~= state.freeze(account).frozen);
    assert(state.unfreeze(account).unfreeze(account).frozen =~= state.unfreeze(account).frozen);
}

} // verus!
