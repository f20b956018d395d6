//! What holds of the ledger whatever it is asked to do.

use vstd::prelude::*;
use crate::api_error::ApiError;
use crate::contract_utils::data::key_text;
use crate::erc20::Error;
use crate::key::{lemma_key_by_addr, Key};
use crate::ledger::{allowance_text, LedgerState, Outcome, REJECTED};
use crate::supply::{amount_at, lemma_total_empty, lemma_total_insert, total};
use crate::text::lemma_hex_lower_injective;
use crate::u256::pow256;

verus! {

/// An operation that creates, destroys or moves tokens.
pub enum Operation {
    /// `amount` new tokens for `recipient`.
    Mint { recipient: Key, amount: nat },
    /// `amount` tokens of `holder` destroyed.
    Burn { holder: Key, amount: nat },
    /// `amount` tokens from `sender` to `recipient`.
    Transfer { sender: Key, recipient: Key, amount: nat },
}

/// Two different identifiers that share one balance slot.
pub open spec fn aliased(a: Key, b: Key) -> bool {
    a != b && key_text(a) is Some && key_text(a) == key_text(b)
}

impl Operation {
    /// The operation does not move tokens between two identifiers that
    /// share a balance slot.
    pub open spec fn unaliased(self) -> bool {
        match self {
            Operation::Transfer { sender, recipient, amount } => !aliased(sender, recipient),
            _ => true,
        }
    }
}

impl LedgerState {
    /// The state that an invocation of `op` commits: that of the operation
    /// where it succeeds, the state before it where it aborts.
    pub open spec fn apply(self, op: Operation) -> LedgerState {
        match op {
            Operation::Mint { recipient, amount } => match self.mint(recipient, amount) {
                Ok(state) => state,
                Err(_) => self,
            },
            Operation::Burn { holder, amount } => match self.burn(holder, amount) {
                Ok(state) => state,
                Err(_) => self,
            },
            Operation::Transfer { sender, recipient, amount } => match self.transfer(
                sender,
                recipient,
                amount,
            ) {
                Ok(state) => state,
                Err(_) => self,
            },
        }
    }

    /// The state after the invocations `ops`, one after the other.
    pub open spec fn run(self, ops: Seq<Operation>) -> LedgerState
        decreases ops.len(),
    {
        if ops.len() == 0 {
            self
        } else {
            self.run(ops.drop_last()).apply(ops.last())
        }
    }
}

/// Two identifiers share a balance slot exactly if one names an account and
/// the other a contract with the same 32 bytes.
pub proof fn lemma_aliased(a: Key, b: Key)
    ensures
        aliased(a, b) <==> a.addr() == b.addr() && ((a is Account && b is Hash) || (a is Hash
            && b is Account)),
{
    if key_text(a) is Some && key_text(a) == key_text(b) {
        lemma_hex_lower_injective(a.addr(), b.addr());
        if a.tag() == b.tag() {
            lemma_key_by_addr(a, b);
        }
    }
}

/// A ledger in which nobody holds anything and no token exists has its
/// balances equal in sum to the total supply.
pub proof fn lemma_empty_conserved()
    ensures
        LedgerState::empty(0).finite(),
        LedgerState::empty(0).conserved(),
{
    lemma_total_empty();
}

/// Making tokens keeps the balances equal in sum to the total supply.
pub proof fn lemma_mint_conserves(s: LedgerState, recipient: Key, amount: nat)
    requires
        s.finite(),
        s.conserved(),
        s.mint(recipient, amount) is Ok,
    ensures
        s.mint(recipient, amount).unwrap().finite(),
        s.mint(recipient, amount).unwrap().conserved(),
{
    let to = key_text(recipient).unwrap();
    lemma_total_insert(s.balances, to, s.balance(to) + amount);
}

/// Destroying tokens keeps the balances equal in sum to the total supply.
pub proof fn lemma_burn_conserves(s: LedgerState, holder: Key, amount: nat)
    requires
        s.finite(),
        s.conserved(),
        s.burn(holder, amount) is Ok,
    ensures
        s.burn(holder, amount).unwrap().finite(),
        s.burn(holder, amount).unwrap().conserved(),
{
    let from = key_text(holder).unwrap();
    lemma_total_insert(s.balances, from, (s.balance(from) - amount) as nat);
}

/// Moving tokens between identifiers that do not share a slot keeps the sum
/// of the balances, and so keeps it equal to the total supply.
pub proof fn lemma_transfer_conserves(s: LedgerState, sender: Key, recipient: Key, amount: nat)
    requires
        s.finite(),
        !aliased(sender, recipient),
        s.transfer(sender, recipient, amount) is Ok,
    ensures
        s.transfer(sender, recipient, amount).unwrap().finite(),
        total(s.transfer(sender, recipient, amount).unwrap().balances) == total(s.balances),
        s.transfer(sender, recipient, amount).unwrap().total_supply == s.total_supply,
{
    if sender != recipient && amount != 0 {
        let from = key_text(sender).unwrap();
        let to = key_text(recipient).unwrap();
        let lowered = s.balances.insert(from, (s.balance(from) - amount) as nat);
        lemma_total_insert(s.balances, from, (s.balance(from) - amount) as nat);
        lemma_total_insert(lowered, to, s.balance(to) + amount);
        assert(amount_at(lowered, to) == s.balance(to));
    }
}

/// After every sequence of invocations that make, destroy and move tokens,
/// none of them between two identifiers that share a slot, the balances add
/// up to the total supply, if they did before.
pub proof fn lemma_supply_conserved(s: LedgerState, ops: Seq<Operation>)
    requires
        s.finite(),
        s.conserved(),
        forall|i: int| 0 <= i < ops.len() ==> (#[trigger] ops[i]).unaliased(),
    ensures
        s.run(ops).finite(),
        s.run(ops).conserved(),
    decreases ops.len(),
{
    if ops.len() > 0 {
        let front = ops.drop_last();
        assert forall|i: int| 0 <= i < front.len() implies (#[trigger] front[i]).unaliased() by {
            assert(front[i] == ops[i]);
        }
        lemma_supply_conserved(s, front);
        let before = s.run(front);
        assert(ops.last() == ops[ops.len() - 1]);
        match ops.last() {
            Operation::Mint { recipient, amount } => {
                if before.mint(recipient, amount) is Ok {
                    lemma_mint_conserves(before, recipient, amount);
                }
            },
            Operation::Burn { holder, amount } => {
                if before.burn(holder, amount) is Ok {
                    lemma_burn_conserves(before, holder, amount);
                }
            },
            Operation::Transfer { sender, recipient, amount } => {
                if before.transfer(sender, recipient, amount) is Ok {
                    lemma_transfer_conserves(before, sender, recipient, amount);
                }
            },
        }
    }
}

/// An operation that would take more out of a balance than it holds aborts:
/// a transfer and a transfer on behalf of the holder for want of balance, a
/// burn for want of funds. An aborted operation leaves the state as it was.
pub proof fn lemma_overdraw_aborts(
    s: LedgerState,
    spender: Key,
    holder: Key,
    recipient: Key,
    amount: nat,
)
    requires
        key_text(holder) is Some,
        s.balance_of(holder) < amount,
    ensures
        s.burn(holder, amount) == Err::<LedgerState, ApiError>(ApiError::InsufficientFunds),
        holder != recipient && key_text(recipient) is Some ==> s.transfer(holder, recipient, amount)
            == Err::<LedgerState, ApiError>(Error::UniswapV2CoreERC20UnderFlow5.abort()),
        holder != recipient && key_text(recipient) is Some ==> s.transfer_from(
            spender,
            holder,
            recipient,
            amount,
        ) == Err::<Outcome, ApiError>(Error::UniswapV2CoreERC20UnderFlow5.abort()),
{
}

/// An allowance that was just approved reads back as the approved amount.
pub proof fn lemma_approve_then_allowance(s: LedgerState, owner: Key, spender: Key, amount: nat)
    ensures
        s.with_allowance(owner, spender, amount).allowance(owner, spender) == amount,
{
}

/// The state that an invocation commits: that of its outcome, or the state
/// before it where it aborted.
pub open spec fn committed(before: LedgerState, step: Result<Outcome, ApiError>) -> LedgerState {
    match step {
        Ok(done) => done.state,
        Err(_) => before,
    }
}

/// Raising an allowance by an amount, where that does not abort, and then
/// lowering it by the same amount restores the allowance: every allowance
/// reads as it did before, and balances, nonces and total supply are
/// untouched. This holds whether the steps were carried out or refused.
pub proof fn lemma_increase_then_decrease(s: LedgerState, owner: Key, spender: Key, amount: nat)
    requires
        s.increase_allowance(owner, spender, amount) is Ok,
    ensures
        ({
            let raised = committed(s, s.increase_allowance(owner, spender, amount));
            let back = committed(raised, raised.decrease_allowance(owner, spender, amount));
            &&& back.allowance(owner, spender) == s.allowance(owner, spender)
            &&& forall|text: Seq<char>| #[trigger]
                amount_at(back.allowances, text) == amount_at(s.allowances, text)
            &&& back.balances == s.balances
            &&& back.nonces == s.nonces
            &&& back.total_supply == s.total_supply
        }),
{
}

/// A spender cannot spend more than the allowance: the attempt aborts, and
/// an aborted operation leaves balances and allowance as they were. Where a
/// transfer on behalf of the owner is carried out, the allowance goes down
/// by exactly the amount moved and was at least that amount.
pub proof fn lemma_overspend_aborts(
    s: LedgerState,
    spender: Key,
    owner: Key,
    recipient: Key,
    amount: nat,
)
    requires
        owner != recipient,
        amount > 0,
    ensures
        s.allowance(owner, spender) < amount ==> s.transfer_from(spender, owner, recipient, amount)
            is Err,
        s.allowance(owner, spender) < amount && s.transfer(owner, recipient, amount) is Ok
            ==> s.transfer_from(spender, owner, recipient, amount) == Err::<Outcome, ApiError>(
            Error::UniswapV2CoreERC20UnderFlow2.abort(),
        ),
        s.transfer_from(spender, owner, recipient, amount) matches Ok(done) ==> {
            &&& s.allowance(owner, spender) >= amount
            &&& done.result is Ok ==> done.state.allowance(owner, spender) + amount == s.allowance(
                owner,
                spender,
            )
            &&& done.result is Err ==> done.result == Err::<(), u32>(REJECTED) && owner == spender
                && done.state.allowance(owner, spender) == s.allowance(owner, spender)
        },
{
}

} // verus!
