//! The state of a token and the operations that change it: balances under
//! account identifiers, allowances under pairs of them, nonces, and the
//! total supply. An operation either takes effect as a whole or aborts and
//! leaves the state as it was.

use vstd::prelude::*;
use crate::api_error::ApiError;
use crate::bytesrepr::ToBytes;
use crate::contract_utils::data::{key_text, key_to_str, keys_to_str, pair_text, Dict};
use crate::erc20::Error;
use crate::key::Key;
use crate::supply::{amount_at, total};
use crate::u256::{pow256, U256};

verus! {

/// The code that an entry point hands back when it refuses a change of an
/// allowance without aborting.
pub const REJECTED: u32 = 4;

/// The amounts that a dictionary of amounts holds, as numbers.
pub open spec fn amounts(slots: Map<Seq<char>, U256>) -> Map<Seq<char>, nat> {
    Map::new(|key: Seq<char>| slots.dom().contains(key), |key: Seq<char>| slots[key]@)
}

/// The slot of the allowance that `owner` grants to `spender`.
pub open spec fn allowance_text(owner: Key, spender: Key) -> Seq<char> {
    pair_text(owner.serialised(), spender.serialised())
}

/// What a ledger holds.
pub struct LedgerState {
    /// The balance of each holder, by the holder's text key.
    pub balances: Map<Seq<char>, nat>,
    /// The allowance of each pair of owner and spender, by the pair's text key.
    pub allowances: Map<Seq<char>, nat>,
    /// The nonce of each account, by the account's text key.
    pub nonces: Map<Seq<char>, nat>,
    /// The number of tokens in existence.
    pub total_supply: nat,
}

/// What an operation that did not abort leaves: the new state, and what the
/// entry point hands back to its caller.
pub struct Outcome {
    /// The state after the operation.
    pub state: LedgerState,
    /// `Ok`, or the code with which the operation refused.
    pub result: Result<(), u32>,
}

impl LedgerState {
    /// The ledger before anything is written: no balance, allowance or nonce.
    pub open spec fn empty(total_supply: nat) -> LedgerState {
        LedgerState {
            balances: Map::empty(),
            allowances: Map::empty(),
            nonces: Map::empty(),
            total_supply,
        }
    }

    /// Every mapping has finitely many slots.
    pub open spec fn finite(self) -> bool {
        self.balances.dom().finite() && self.allowances.dom().finite()
            && self.nonces.dom().finite()
    }

    /// The balances add up to the total supply.
    pub open spec fn conserved(self) -> bool {
        total(self.balances) == self.total_supply
    }

    /// The balance in the slot `text`.
    pub open spec fn balance(self, text: Seq<char>) -> nat {
        amount_at(self.balances, text)
    }

    /// The balance of `owner`; zero where `owner` cannot hold tokens.
    pub open spec fn balance_of(self, owner: Key) -> nat {
        match key_text(owner) {
            Some(text) => self.balance(text),
            None => 0,
        }
    }

    /// The amount that `spender` may still move out of `owner`'s balance.
    pub open spec fn allowance(self, owner: Key, spender: Key) -> nat {
        amount_at(self.allowances, allowance_text(owner, spender))
    }

    /// The nonce in the slot `text`.
    pub open spec fn nonce(self, text: Seq<char>) -> nat {
        amount_at(self.nonces, text)
    }

    /// The state with `amount` written into the balance slot `text`.
    pub open spec fn with_balance(self, text: Seq<char>, amount: nat) -> LedgerState {
        LedgerState { balances: self.balances.insert(text, amount), ..self }
    }

    /// The state with `amount` written as the allowance of `owner` to `spender`.
    pub open spec fn with_allowance(self, owner: Key, spender: Key, amount: nat) -> LedgerState {
        LedgerState {
            allowances: self.allowances.insert(allowance_text(owner, spender), amount),
            ..self
        }
    }

    /// The state with `amount` written into the nonce slot `text`.
    pub open spec fn with_nonce(self, text: Seq<char>, amount: nat) -> LedgerState {
        LedgerState { nonces: self.nonces.insert(text, amount), ..self }
    }

    /// The state with the total supply set to `amount`.
    pub open spec fn with_total_supply(self, amount: nat) -> LedgerState {
        LedgerState { total_supply: amount, ..self }
    }

    /// Moving `amount` from `sender` to `recipient`. Nothing happens where
    /// the two are the same or the amount is zero. Otherwise both balances
    /// are read, the sender's is lowered and the recipient's raised; the
    /// move aborts where the sender holds too little or the recipient would
    /// hold too much.
    pub open spec fn transfer(self, sender: Key, recipient: Key, amount: nat) -> Result<
        LedgerState,
        ApiError,
    > {
        if sender == recipient || amount == 0 {
            Ok(self)
        } else if key_text(sender) is None || key_text(recipient) is None {
            Err(ApiError::UnexpectedKeyVariant)
        } else {
            let from = key_text(sender).unwrap();
            let to = key_text(recipient).unwrap();
            if self.balance(from) < amount {
                Err(Error::UniswapV2CoreERC20UnderFlow5.abort())
            } else if self.balance(to) + amount >= pow256() {
                Err(Error::UniswapV2CoreERC20OverFlow4.abort())
            } else {
                Ok(
                    self.with_balance(from, (self.balance(from) - amount) as nat).with_balance(
                        to,
                        self.balance(to) + amount,
                    ),
                )
            }
        }
    }

    /// Raising the allowance of `owner` to `spender` by `amount`. It aborts
    /// where the sum exceeds the largest amount, and refuses where the owner
    /// is the spender.
    pub open spec fn increase_allowance(self, owner: Key, spender: Key, amount: nat) -> Result<
        Outcome,
        ApiError,
    > {
        let current = self.allowance(owner, spender);
        if current + amount >= pow256() {
            Err(Error::UniswapV2CoreERC20OverFlow1.abort())
        } else if owner != spender {
            Ok(
                Outcome {
                    state: self.with_allowance(owner, spender, current + amount),
                    result: Ok(()),
                },
            )
        } else {
            Ok(Outcome { state: self, result: Err(REJECTED) })
        }
    }

    /// Lowering the allowance of `owner` to `spender` by `amount`. It aborts
    /// where the allowance holds less, and refuses where the owner is the
    /// spender or the allowance would not become smaller.
    pub open spec fn decrease_allowance(self, owner: Key, spender: Key, amount: nat) -> Result<
        Outcome,
        ApiError,
    > {
        let current = self.allowance(owner, spender);
        if current < amount {
            Err(Error::UniswapV2CoreERC20UnderFlow1.abort())
        } else if amount > 0 && owner != spender {
            Ok(
                Outcome {
                    state: self.with_allowance(owner, spender, (current - amount) as nat),
                    result: Ok(()),
                },
            )
        } else {
            Ok(Outcome { state: self, result: Err(REJECTED) })
        }
    }

    /// `spender` moving `amount` from `owner` to `recipient`. Nothing
    /// happens where owner and recipient are the same or the amount is zero.
    /// Otherwise the amount is moved and then taken off the allowance; the
    /// whole aborts where the move aborts or the allowance holds less. Where
    /// the owner is the spender the move stands, the allowance is left as it
    /// was, and the operation refuses.
    pub open spec fn transfer_from(
        self,
        spender: Key,
        owner: Key,
        recipient: Key,
        amount: nat,
    ) -> Result<Outcome, ApiError> {
        if owner == recipient || amount == 0 {
            Ok(Outcome { state: self, result: Ok(()) })
        } else {
            match self.transfer(owner, recipient, amount) {
                Err(e) => Err(e),
                Ok(moved) => {
                    let current = self.allowance(owner, spender);
                    if current < amount {
                        Err(Error::UniswapV2CoreERC20UnderFlow2.abort())
                    } else if owner != spender {
                        Ok(
                            Outcome {
                                state: moved.with_allowance(
                                    owner,
                                    spender,
                                    (current - amount) as nat,
                                ),
                                result: Ok(()),
                            },
                        )
                    } else {
                        Ok(Outcome { state: moved, result: Err(REJECTED) })
                    }
                },
            }
        }
    }

    /// Making `amount` new tokens for `recipient`. It aborts where the
    /// balance or the total supply would exceed the largest amount.
    pub open spec fn mint(self, recipient: Key, amount: nat) -> Result<LedgerState, ApiError> {
        match key_text(recipient) {
            None => Err(ApiError::UnexpectedKeyVariant),
            Some(to) => if self.balance(to) + amount >= pow256() {
                Err(Error::UniswapV2CoreERC20OverFlow2.abort())
            } else if self.total_supply + amount >= pow256() {
                Err(Error::UniswapV2CoreERC20OverFlow3.abort())
            } else {
                Ok(
                    self.with_balance(to, self.balance(to) + amount).with_total_supply(
                        self.total_supply + amount,
                    ),
                )
            },
        }
    }

    /// Destroying `amount` tokens of `holder`. It aborts where the holder
    /// has fewer, or the total supply is smaller than the amount.
    pub open spec fn burn(self, holder: Key, amount: nat) -> Result<LedgerState, ApiError> {
        match key_text(holder) {
            None => Err(ApiError::UnexpectedKeyVariant),
            Some(from) => if self.balance(from) < amount {
                Err(ApiError::InsufficientFunds)
            } else if self.total_supply < amount {
                Err(Error::UniswapV2CoreERC20UnderFlow4.abort())
            } else {
                Ok(
                    self.with_balance(from, (self.balance(from) - amount) as nat).with_total_supply(
                        (self.total_supply - amount) as nat,
                    ),
                )
            },
        }
    }
}

/// The token's state: its description, its total supply and its three
/// dictionaries.
pub struct Ledger {
    name: String,
    symbol: String,
    decimals: u8,
    total_supply: U256,
    balances: Dict<U256>,
    allowances: Dict<U256>,
    nonces: Dict<U256>,
}

impl View for Ledger {
    type V = LedgerState;

    /// What the ledger holds.
    closed spec fn view(&self) -> LedgerState {
        LedgerState {
            balances: amounts(self.balances@),
            allowances: amounts(self.allowances@),
            nonces: amounts(self.nonces@),
            total_supply: self.total_supply@,
        }
    }
}

/// The amount in the slot `text` of `dict`; an empty slot reads as zero.
fn read(dict: &Dict<U256>, text: &str) -> (r: U256)
    requires
        dict.wf(),
    ensures
        r@ == amount_at(amounts(dict@), text@),
{
    match dict.get(text) {
        Some(value) => value,
        None => U256::zero(),
    }
}

/// Writes `value` into the slot `text` of `dict`.
fn write(dict: &mut Dict<U256>, text: &str, value: U256)
    requires
        old(dict).wf(),
    ensures
        final(dict).wf(),
        final(dict).spec_name() == old(dict).spec_name(),
        amounts(final(dict)@) == amounts(old(dict)@).insert(text@, value@),
{
    dict.set(text, value);
    assert(amounts(dict@) =~= amounts(old(dict)@).insert(text@, value@));
}

impl Ledger {
    /// The three dictionaries are well formed. Every ledger that this module
    /// hands out is, and its methods keep it so.
    pub closed spec fn wf(&self) -> bool {
        self.balances.wf() && self.allowances.wf() && self.nonces.wf()
    }

    /// The token's name.
    pub closed spec fn spec_name(&self) -> Seq<char> {
        self.name@
    }

    /// The token's symbol.
    pub closed spec fn spec_symbol(&self) -> Seq<char> {
        self.symbol@
    }

    /// The number of decimal places in which amounts are shown.
    pub closed spec fn spec_decimals(&self) -> u8 {
        self.decimals
    }

    /// The two ledgers describe the same token.
    pub open spec fn same_token(&self, other: &Ledger) -> bool {
        self.spec_name() == other.spec_name() && self.spec_symbol() == other.spec_symbol()
            && self.spec_decimals() == other.spec_decimals()
    }

    /// A well-formed ledger holds finitely many slots.
    pub proof fn lemma_finite(&self)
        requires
            self.wf(),
        ensures
            self@.finite(),
    {
        self.balances.lemma_finite();
        self.allowances.lemma_finite();
        self.nonces.lemma_finite();
        assert(amounts(self.balances@).dom() =~= self.balances@.dom());
        assert(amounts(self.allowances@).dom() =~= self.allowances@.dom());
        assert(amounts(self.nonces@).dom() =~= self.nonces@.dom());
    }

    /// A ledger with the given description and total supply, in which
    /// nobody holds anything yet.
    pub fn new(name: String, symbol: String, decimals: u8, initial_supply: U256) -> (r: Ledger)
        ensures
            r.wf(),
            r@ == LedgerState::empty(initial_supply@),
            r.spec_name() == name@,
            r.spec_symbol() == symbol@,
            r.spec_decimals() == decimals,
    {
        let r = Ledger {
            name,
            symbol,
            decimals,
            total_supply: initial_supply,
            balances: Dict::init("balances"),
            allowances: Dict::init("allowances"),
            nonces: Dict::init("nonces"),
        };
        assert(r@.balances =~= Map::<Seq<char>, nat>::empty());
        assert(r@.allowances =~= Map::<Seq<char>, nat>::empty());
        assert(r@.nonces =~= Map::<Seq<char>, nat>::empty());
        r
    }

    /// The token's name.
    pub fn name(&self) -> (r: String)
        ensures
            r@ == self.spec_name(),
    {
        self.name.clone()
    }

    /// Renames the token.
    pub fn set_name(&mut self, name: String)
        requires
            old(self).wf(),
        ensures
            final(self).wf(),
            final(self)@ == old(self)@,
            final(self).spec_name() == name@,
            final(self).spec_symbol() == old(self).spec_symbol(),
            final(self).spec_decimals() == old(self).spec_decimals(),
    {
        self.name = name;
    }

    /// The token's symbol.
    pub fn symbol(&self) -> (r: String)
        ensures
            r@ == self.spec_symbol(),
    {
        self.symbol.clone()
    }

    /// Changes the token's symbol.
    pub fn set_symbol(&mut self, symbol: String)
        requires
            old(self).wf(),
        ensures
            final(self).wf(),
            final(self)@ == old(self)@,
            final(self).spec_name() == old(self).spec_name(),
            final(self).spec_symbol() == symbol@,
            final(self).spec_decimals() == old(self).spec_decimals(),
    {
        self.symbol = symbol;
    }

    /// The number of decimal places in which amounts are shown.
    pub fn decimals(&self) -> (r: u8)
        ensures
            r == self.spec_decimals(),
    {
        self.decimals
    }

    /// The number of tokens in existence.
    pub fn total_supply(&self) -> (r: U256)
        ensures
            r@ == self@.total_supply,
    {
        self.total_supply
    }

    /// Sets the total supply, whatever the balances are.
    pub fn set_total_supply(&mut self, total_supply: U256)
        requires
            old(self).wf(),
        ensures
            final(self).wf(),
            final(self).same_token(old(self)),
            final(self)@ == old(self)@.with_total_supply(total_supply@),
    {
        self.total_supply = total_supply;
    }

    /// The balance of `owner`; zero where nothing was written yet.
    pub fn balance_of(&self, owner: &Key) -> (r: Result<U256, ApiError>)
        requires
            self.wf(),
        ensures
            match r {
                Ok(amount) => key_text(*owner) is Some && amount@ == self@.balance_of(*owner),
                Err(e) => key_text(*owner) is None && e == ApiError::UnexpectedKeyVariant,
            },
    {
        match key_to_str(owner) {
            Ok(text) => Ok(read(&self.balances, text.as_str())),
            Err(e) => Err(e),
        }
    }

    /// Sets the balance of `owner`, whatever the total supply is.
    pub fn set_balance(&mut self, owner: &Key, amount: U256) -> (r: Result<(), ApiError>)
        requires
            old(self).wf(),
        ensures
            final(self).wf(),
            final(self).same_token(old(self)),
            match key_text(*owner) {
                Some(text) => r is Ok && final(self)@ == old(self)@.with_balance(text, amount@),
                None => r == Err::<(), ApiError>(ApiError::UnexpectedKeyVariant) && final(self)@
                    == old(self)@,
            },
    {
        match key_to_str(owner) {
            Ok(text) => {
                write(&mut self.balances, text.as_str(), amount);
                Ok(())
            },
            Err(e) => Err(e),
        }
    }

    /// The amount that `spender` may still move out of `owner`'s balance.
    pub fn allowance(&self, owner: &Key, spender: &Key) -> (r: U256)
        requires
            self.wf(),
        ensures
            r@ == self@.allowance(*owner, *spender),
    {
        let text = keys_to_str(owner, spender);
        read(&self.allowances, text.as_str())
    }

    /// Sets the allowance of `owner` to `spender`, over whatever it was.
    pub fn set_allowance(&mut self, owner: &Key, spender: &Key, amount: U256)
        requires
            old(self).wf(),
        ensures
            final(self).wf(),
            final(self).same_token(old(self)),
            final(self)@ == old(self)@.with_allowance(*owner, *spender, amount@),
            final(self)@.allowance(*owner, *spender) == amount@,
    {
        let text = keys_to_str(owner, spender);
        write(&mut self.allowances, text.as_str(), amount);
    }

    /// The nonce of `owner`; zero where it was never raised.
    pub fn nonce(&self, owner: &Key) -> (r: Result<U256, ApiError>)
        requires
            self.wf(),
        ensures
            match key_text(*owner) {
                Some(text) => r is Ok && r.unwrap()@ == self@.nonce(text),
                None => r == Err::<U256, ApiError>(ApiError::UnexpectedKeyVariant),
            },
    {
        match key_to_str(owner) {
            Ok(text) => Ok(read(&self.nonces, text.as_str())),
            Err(e) => Err(e),
        }
    }

    /// Sets the nonce of `owner`, over whatever it was.
    pub fn write_nonce(&mut self, owner: &Key, amount: U256) -> (r: Result<(), ApiError>)
        requires
            old(self).wf(),
        ensures
            final(self).wf(),
            final(self).same_token(old(self)),
            match key_text(*owner) {
                Some(text) => r is Ok && final(self)@ == old(self)@.with_nonce(text, amount@),
                None => r == Err::<(), ApiError>(ApiError::UnexpectedKeyVariant) && final(self)@
                    == old(self)@,
            },
    {
        match key_to_str(owner) {
            Ok(text) => {
                write(&mut self.nonces, text.as_str(), amount);
                Ok(())
            },
            Err(e) => Err(e),
        }
    }

    /// Raises the nonce of `recipient` by one.
    pub fn set_nonce(&mut self, recipient: &Key) -> (r: Result<(), ApiError>)
        requires
            old(self).wf(),
            key_text(*recipient) is Some ==> old(self)@.nonce(key_text(*recipient).unwrap()) + 1
                < pow256(),
        ensures
            final(self).wf(),
            final(self).same_token(old(self)),
            match key_text(*recipient) {
                Some(text) => r is Ok && final(self)@ == old(self)@.with_nonce(
                    text,
                    old(self)@.nonce(text) + 1,
                ),
                None => r == Err::<(), ApiError>(ApiError::UnexpectedKeyVariant) && final(self)@
                    == old(self)@,
            },
    {
        let text = match key_to_str(recipient) {
            Ok(text) => text,
            Err(e) => {
                return Err(e);
            },
        };
        let nonce = read(&self.nonces, text.as_str());
        match nonce.checked_add(U256::from_u64(1)) {
            Some(next) => {
                write(&mut self.nonces, text.as_str(), next);
            },
            None => {},
        }
        Ok(())
    }

    /// Moves `amount` from `sender` to `recipient`.
    pub fn transfer(&mut self, sender: &Key, recipient: &Key, amount: U256) -> (r: Result<
        (),
        ApiError,
    >)
        requires
            old(self).wf(),
        ensures
            final(self).wf(),
            final(self).same_token(old(self)),
            match old(self)@.transfer(*sender, *recipient, amount@) {
                Ok(state) => r is Ok && final(self)@ == state,
                Err(e) => r == Err::<(), ApiError>(e) && final(self)@ == old(self)@,
            },
    {
        if *sender != *recipient && !amount.is_zero() {
            let from = match key_to_str(sender) {
                Ok(text) => text,
                Err(e) => {
                    return Err(e);
                },
            };
            let to = match key_to_str(recipient) {
                Ok(text) => text,
                Err(e) => {
                    return Err(e);
                },
            };
            let sender_balance = read(&self.balances, from.as_str());
            let recipient_balance = read(&self.balances, to.as_str());
            let lowered = match sender_balance.checked_sub(amount) {
                Some(value) => value,
                None => {
                    return Err(ApiError::from(Error::UniswapV2CoreERC20UnderFlow5));
                },
            };
            let raised = match recipient_balance.checked_add(amount) {
                Some(value) => value,
                None => {
                    return Err(ApiError::from(Error::UniswapV2CoreERC20OverFlow4));
                },
            };
            write(&mut self.balances, from.as_str(), lowered);
            write(&mut self.balances, to.as_str(), raised);
        }
        Ok(())
    }

    /// Sets the allowance of `owner` to `spender` to `amount`, over whatever
    /// it was.
    pub fn approve(&mut self, owner: &Key, spender: &Key, amount: U256)
        requires
            old(self).wf(),
        ensures
            final(self).wf(),
            final(self).same_token(old(self)),
            final(self)@ == old(self)@.with_allowance(*owner, *spender, amount@),
            final(self)@.allowance(*owner, *spender) == amount@,
    {
        self.set_allowance(owner, spender, amount)
    }

    /// Raises the allowance of `owner` to `spender` by `amount`.
    pub fn increase_allowance(&mut self, owner: &Key, spender: &Key, amount: U256) -> (r: Result<
        Result<(), u32>,
        ApiError,
    >)
        requires
            old(self).wf(),
        ensures
            final(self).wf(),
            final(self).same_token(old(self)),
            match old(self)@.increase_allowance(*owner, *spender, amount@) {
                Ok(done) => r == Ok::<Result<(), u32>, ApiError>(done.result) && final(self)@
                    == done.state,
                Err(e) => r == Err::<Result<(), u32>, ApiError>(e) && final(self)@ == old(self)@,
            },
    {
        let spender_allowance = self.allowance(owner, spender);
        let new_allowance = match spender_allowance.checked_add(amount) {
            Some(value) => value,
            None => {
                return Err(ApiError::from(Error::UniswapV2CoreERC20OverFlow1));
            },
        };
        if *owner != *spender {
            self.approve(owner, spender, new_allowance);
            Ok(Ok(()))
        } else {
            Ok(Err(REJECTED))
        }
    }

    /// Lowers the allowance of `owner` to `spender` by `amount`.
    pub fn decrease_allowance(&mut self, owner: &Key, spender: &Key, amount: U256) -> (r: Result<
        Result<(), u32>,
        ApiError,
    >)
        requires
            old(self).wf(),
        ensures
            final(self).wf(),
            final(self).same_token(old(self)),
            match old(self)@.decrease_allowance(*owner, *spender, amount@) {
                Ok(done) => r == Ok::<Result<(), u32>, ApiError>(done.result) && final(self)@
                    == done.state,
                Err(e) => r == Err::<Result<(), u32>, ApiError>(e) && final(self)@ == old(self)@,
            },
    {
        let spender_allowance = self.allowance(owner, spender);
        let new_allowance = match spender_allowance.checked_sub(amount) {
            Some(value) => value,
            None => {
                return Err(ApiError::from(Error::UniswapV2CoreERC20UnderFlow1));
            },
        };
        if new_allowance.lt(&spender_allowance) && *owner != *spender {
            self.approve(owner, spender, new_allowance);
            Ok(Ok(()))
        } else {
            Ok(Err(REJECTED))
        }
    }

    /// Moves `amount` from `owner` to `recipient` on behalf of `spender`,
    /// and takes it off the allowance that `owner` granted to `spender`.
    pub fn transfer_from(
        &mut self,
        spender: &Key,
        owner: &Key,
        recipient: &Key,
        amount: U256,
    ) -> (r: Result<Result<(), u32>, ApiError>)
        requires
            old(self).wf(),
        ensures
            final(self).wf(),
            final(self).same_token(old(self)),
            match old(self)@.transfer_from(*spender, *owner, *recipient, amount@) {
                Ok(done) => r == Ok::<Result<(), u32>, ApiError>(done.result) && final(self)@
                    == done.state,
                Err(e) => r == Err::<Result<(), u32>, ApiError>(e) && final(self)@ == old(self)@,
            },
    {
        if *owner != *recipient && !amount.is_zero() {
            let from = match key_to_str(owner) {
                Ok(text) => text,
                Err(e) => {
                    return Err(e);
                },
            };
            let to = match key_to_str(recipient) {
                Ok(text) => text,
                Err(e) => {
                    return Err(e);
                },
            };
            let owner_balance = read(&self.balances, from.as_str());
            let recipient_balance = read(&self.balances, to.as_str());
            let lowered = match owner_balance.checked_sub(amount) {
                Some(value) => value,
                None => {
                    return Err(ApiError::from(Error::UniswapV2CoreERC20UnderFlow5));
                },
            };
            let raised = match recipient_balance.checked_add(amount) {
                Some(value) => value,
                None => {
                    return Err(ApiError::from(Error::UniswapV2CoreERC20OverFlow4));
                },
            };
            let spender_allowance = self.allowance(owner, spender);
            let new_allowance = match spender_allowance.checked_sub(amount) {
                Some(value) => value,
                None => {
                    return Err(ApiError::from(Error::UniswapV2CoreERC20UnderFlow2));
                },
            };
            write(&mut self.balances, from.as_str(), lowered);
            write(&mut self.balances, to.as_str(), raised);
            if new_allowance.lt(&spender_allowance) && *owner != *spender {
                self.approve(owner, spender, new_allowance);
                return Ok(Ok(()));
            } else {
                return Ok(Err(REJECTED));
            }
        }
        Ok(Ok(()))
    }

    /// Makes `amount` new tokens and gives them to `recipient`.
    pub fn mint(&mut self, recipient: &Key, amount: U256) -> (r: Result<(), ApiError>)
        requires
            old(self).wf(),
        ensures
            final(self).wf(),
            final(self).same_token(old(self)),
            match old(self)@.mint(*recipient, amount@) {
                Ok(state) => r is Ok && final(self)@ == state,
                Err(e) => r == Err::<(), ApiError>(e) && final(self)@ == old(self)@,
            },
    {
        let to = match key_to_str(recipient) {
            Ok(text) => text,
            Err(e) => {
                return Err(e);
            },
        };
        let balance = read(&self.balances, to.as_str());
        let raised = match balance.checked_add(amount) {
            Some(value) => value,
            None => {
                return Err(ApiError::from(Error::UniswapV2CoreERC20OverFlow2));
            },
        };
        let supply = match self.total_supply.checked_add(amount) {
            Some(value) => value,
            None => {
                return Err(ApiError::from(Error::UniswapV2CoreERC20OverFlow3));
            },
        };
        write(&mut self.balances, to.as_str(), raised);
        self.total_supply = supply;
        Ok(())
    }

    /// Destroys `amount` tokens of `holder`.
    pub fn burn(&mut self, holder: &Key, amount: U256) -> (r: Result<(), ApiError>)
        requires
            old(self).wf(),
        ensures
            final(self).wf(),
            final(self).same_token(old(self)),
            match old(self)@.burn(*holder, amount@) {
                Ok(state) => r is Ok && final(self)@ == state,
                Err(e) => r == Err::<(), ApiError>(e) && final(self)@ == old(self)@,
            },
    {
        let from = match key_to_str(holder) {
            Ok(text) => text,
            Err(e) => {
                return Err(e);
            },
        };
        let balance = read(&self.balances, from.as_str());
        if balance.ge(&amount) {
            let lowered = match balance.checked_sub(amount) {
                Some(value) => value,
                None => {
                    return Err(ApiError::from(Error::UniswapV2CoreERC20UnderFlow3));
                },
            };
            let supply = match self.total_supply.checked_sub(amount) {
                Some(value) => value,
                None => {
                    return Err(ApiError::from(Error::UniswapV2CoreERC20UnderFlow4));
                },
            };
            write(&mut self.balances, from.as_str(), lowered);
            self.total_supply = supply;
            Ok(())
        } else {
            Err(ApiError::InsufficientFunds)
        }
    }
}

} // verus!
