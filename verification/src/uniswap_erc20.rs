//! The ledger's entry points, each reporting what it did: transfers,
//! approvals, and tokens made or destroyed as transfers from or to the
//! zero address.

use vstd::prelude::*;
use crate::api_error::ApiError;
use crate::compound_erc20::data::{
    set_contract_hash, set_package_hash, spec_zero_address, zero_address, ContractData,
};
use crate::compound_erc20::event::{approval_record, emit, transfer_record, ERC20Event};
use crate::contract_utils::data::key_text;
use crate::key::Key;
use crate::ledger::{Ledger, LedgerState};
use crate::record::{log_view, Field};
use crate::u256::U256;

verus! {

/// A token in the hands of one caller, for the length of one invocation,
/// which records every change of balance and allowance that it makes through
/// its entry points.
pub struct ERC20 {
    caller: Key,
    data: ContractData,
    token: Ledger,
    events: Vec<Vec<Field>>,
}

impl View for ERC20 {
    type V = LedgerState;

    /// What the token's ledger holds.
    closed spec fn view(&self) -> LedgerState {
        self.token@
    }
}

impl ERC20 {
    /// The ledger is well formed. Every value that this module hands out
    /// is, and its methods keep it so.
    pub closed spec fn wf(&self) -> bool {
        self.token.wf()
    }

    /// Who is calling.
    pub closed spec fn spec_caller(&self) -> Key {
        self.caller
    }

    /// What the contract knows of itself.
    pub closed spec fn spec_data(&self) -> ContractData {
        self.data
    }

    /// The token's state and description.
    pub closed spec fn spec_token(&self) -> Ledger {
        self.token
    }

    /// The records written so far, oldest first.
    pub closed spec fn events(&self) -> Seq<Seq<(Seq<char>, Seq<char>)>> {
        log_view(self.events@)
    }

    /// The package that issues the events, as bytes.
    pub open spec fn package(&self) -> Seq<u8> {
        self.spec_data().spec_package_hash()@
    }

    /// The two values belong to the same invocation on the same token: the
    /// caller, the contract's identity and the token's description agree.
    pub open spec fn same_context(&self, other: &ERC20) -> bool {
        &&& self.spec_caller() == other.spec_caller()
        &&& self.spec_data() == other.spec_data()
        &&& self.spec_token().same_token(&other.spec_token())
    }

    /// What an operation leaves that did not abort: the state `state`, and
    /// the records `records` after those that were there.
    pub open spec fn done(&self, before: &ERC20, state: LedgerState, records: Seq<
        Seq<(Seq<char>, Seq<char>)>,
    >) -> bool {
        &&& self.wf()
        &&& self.same_context(before)
        &&& self@ == state
        &&& self.events() == before.events() + records
    }

    /// What an operation leaves that aborted: everything as it was.
    pub open spec fn untouched(&self, before: &ERC20) -> bool {
        &&& self.wf()
        &&& self.same_context(before)
        &&& self@ == before@
        &&& self.events() == before.events()
    }

    /// The token `token` in the hands of `caller`, with no record written.
    pub fn at(caller: Key, data: ContractData, token: Ledger) -> (r: ERC20)
        requires
            token.wf(),
        ensures
            r.wf(),
            r@ == token@,
            r.spec_token() == token,
            r.spec_caller() == caller,
            r.spec_data() == data,
            r.events() == Seq::<Seq<(Seq<char>, Seq<char>)>>::empty(),
    {
        let r = ERC20 { caller, data, token, events: Vec::new() };
        assert(r.events() =~= Seq::<Seq<(Seq<char>, Seq<char>)>>::empty());
        r
    }

    /// Tells the contract its own hash and that of its package.
    pub fn init(&mut self, contract_hash: [u8; 32], package_hash: [u8; 32])
        requires
            old(self).wf(),
        ensures
            final(self).wf(),
            final(self)@ == old(self)@,
            final(self).events() == old(self).events(),
            final(self).spec_caller() == old(self).spec_caller(),
            final(self).spec_token() == old(self).spec_token(),
            final(self).spec_data().spec_contract_hash() == contract_hash,
            final(self).spec_data().spec_package_hash() == package_hash,
    {
        set_contract_hash(&mut self.data, contract_hash);
        set_package_hash(&mut self.data, package_hash);
    }

    /// Who is calling.
    pub fn get_caller(&self) -> (r: Key)
        ensures
            r == self.spec_caller(),
    {
        self.caller
    }

    /// The token's state and description.
    pub fn token(&self) -> (r: &Ledger)
        ensures
            *r == self.spec_token(),
            r@ == self@,
    {
        &self.token
    }

    /// The records written so far, oldest first.
    pub fn records(&self) -> (r: &Vec<Vec<Field>>)
        ensures
            log_view(r@) == self.events(),
    {
        &self.events
    }

    /// Writes the record of `event` to the log.
    fn record(&mut self, event: &ERC20Event)
        requires
            old(self).wf(),
        ensures
            final(self).done(old(self), old(self)@, seq![event.spec_record(old(self).package())]),
    {
        let mut records = emit(&self.data, event);
        self.events.append(&mut records);
        assert(self.events() =~= old(self).events() + seq![
            event.spec_record(old(self).package()),
        ]);
    }

    /// The token's name.
    pub fn name(&self) -> (r: String)
        ensures
            r@ == self.spec_token().spec_name(),
    {
        self.token.name()
    }

    /// The token's symbol.
    pub fn symbol(&self) -> (r: String)
        ensures
            r@ == self.spec_token().spec_symbol(),
    {
        self.token.symbol()
    }

    /// The number of decimal places in which amounts are shown.
    pub fn decimals(&self) -> (r: u8)
        ensures
            r == self.spec_token().spec_decimals(),
    {
        self.token.decimals()
    }

    /// The number of tokens in existence.
    pub fn total_supply(&self) -> (r: U256)
        ensures
            r@ == self@.total_supply,
    {
        self.token.total_supply()
    }

    /// The balance of `owner`.
    pub fn balance_of(&self, owner: Key) -> (r: Result<U256, ApiError>)
        requires
            self.wf(),
        ensures
            match r {
                Ok(amount) => key_text(owner) is Some && amount@ == self@.balance_of(owner),
                Err(e) => key_text(owner) is None && e == ApiError::UnexpectedKeyVariant,
            },
    {
        self.token.balance_of(&owner)
    }

    /// The amount that `spender` may still move out of `owner`'s balance.
    pub fn allowance(&self, owner: Key, spender: Key) -> (r: U256)
        requires
            self.wf(),
        ensures
            r@ == self@.allowance(owner, spender),
    {
        self.token.allowance(&owner, &spender)
    }

    /// Raises the allowance of `spender` over the caller's tokens by `amount`.
    pub fn increase_allowance(&mut self, spender: Key, amount: U256) -> (r: Result<
        Result<(), u32>,
        ApiError,
    >)
        requires
            old(self).wf(),
        ensures
            match old(self)@.increase_allowance(old(self).spec_caller(), spender, amount@) {
                Ok(step) => r == Ok::<Result<(), u32>, ApiError>(step.result) && final(self).done(
                    old(self),
                    step.state,
                    Seq::empty(),
                ),
                Err(e) => r == Err::<Result<(), u32>, ApiError>(e) && final(self).untouched(
                    old(self),
                ),
            },
    {
        let owner = self.get_caller();
        let r = self.token.increase_allowance(&owner, &spender, amount);
        assert(self.events() =~= old(self).events() + Seq::empty());
        r
    }

    /// Lowers the allowance of `spender` over the caller's tokens by `amount`.
    pub fn decrease_allowance(&mut self, spender: Key, amount: U256) -> (r: Result<
        Result<(), u32>,
        ApiError,
    >)
        requires
            old(self).wf(),
        ensures
            match old(self)@.decrease_allowance(old(self).spec_caller(), spender, amount@) {
                Ok(step) => r == Ok::<Result<(), u32>, ApiError>(step.result) && final(self).done(
                    old(self),
                    step.state,
                    Seq::empty(),
                ),
                Err(e) => r == Err::<Result<(), u32>, ApiError>(e) && final(self).untouched(
                    old(self),
                ),
            },
    {
        let owner = self.get_caller();
        let r = self.token.decrease_allowance(&owner, &spender, amount);
        assert(self.events() =~= old(self).events() + Seq::empty());
        r
    }

    /// Moves `amount` from the caller to `recipient` and records the
    /// transfer.
    pub fn transfer(&mut self, recipient: Key, amount: U256) -> (r: Result<(), ApiError>)
        requires
            old(self).wf(),
        ensures
            match old(self)@.transfer(old(self).spec_caller(), recipient, amount@) {
                Ok(state) => r is Ok && final(self).done(
                    old(self),
                    state,
                    seq![
                        transfer_record(
                            old(self).package(),
                            old(self).spec_caller(),
                            recipient,
                            amount@,
                        ),
                    ],
                ),
                Err(e) => r == Err::<(), ApiError>(e) && final(self).untouched(old(self)),
            },
    {
        let sender = self.get_caller();
        let ret = self.token.transfer(&sender, &recipient, amount);
        if ret.is_ok() {
            self.record(&ERC20Event::Transfer { from: sender, to: recipient, value: amount });
        }
        ret
    }

    /// Sets the allowance of `spender` over the tokens of `owner` to
    /// `value` and records the approval.
    pub fn _approve(&mut self, owner: Key, spender: Key, value: U256) -> (r: Result<(), ApiError>)
        requires
            old(self).wf(),
        ensures
            r is Ok,
            final(self).done(
                old(self),
                old(self)@.with_allowance(owner, spender, value@),
                seq![approval_record(old(self).package(), owner, spender, value@)],
            ),
            final(self)@.allowance(owner, spender) == value@,
    {
        self.token.approve(&owner, &spender, value);
        self.record(&ERC20Event::Approval { owner: owner, spender: spender, value });
        Ok(())
    }

    /// Sets the allowance of `spender` over the caller's tokens to `value`
    /// and records the approval.
    pub fn approve(&mut self, spender: Key, value: U256) -> (r: Result<(), ApiError>)
        requires
            old(self).wf(),
        ensures
            r is Ok,
            final(self).done(
                old(self),
                old(self)@.with_allowance(old(self).spec_caller(), spender, value@),
                seq![
                    approval_record(old(self).package(), old(self).spec_caller(), spender, value@),
                ],
            ),
            final(self)@.allowance(old(self).spec_caller(), spender) == value@,
    {
        let owner = self.get_caller();
        self._approve(owner, spender, value)
    }

    /// Moves `value` from `from` to `to` on behalf of the caller and,
    /// unless the ledger refused, records the transfer.
    pub fn transfer_from(&mut self, from: Key, to: Key, value: U256) -> (r: Result<
        Result<(), u32>,
        ApiError,
    >)
        requires
            old(self).wf(),
        ensures
            match old(self)@.transfer_from(old(self).spec_caller(), from, to, value@) {
                Ok(step) => r == Ok::<Result<(), u32>, ApiError>(step.result) && final(self).done(
                    old(self),
                    step.state,
                    if step.result is Ok {
                        seq![transfer_record(old(self).package(), from, to, value@)]
                    } else {
                        Seq::empty()
                    },
                ),
                Err(e) => r == Err::<Result<(), u32>, ApiError>(e) && final(self).untouched(
                    old(self),
                ),
            },
    {
        let spender = self.get_caller();
        match self.token.transfer_from(&spender, &from, &to, value) {
            Ok(ret) => {
                if ret.is_ok() {
                    self.record(&ERC20Event::Transfer { from: from, to: to, value });
                } else {
                    assert(self.events() =~= old(self).events() + Seq::empty());
                }
                Ok(ret)
            },
            Err(e) => Err(e),
        }
    }

    /// Makes `value` new tokens for `to`, and records them as sent by the
    /// zero address that stands for no contract.
    pub fn mint(&mut self, to: Key, value: U256) -> (r: Result<(), ApiError>)
        requires
            old(self).wf(),
        ensures
            match old(self)@.mint(to, value@) {
                Ok(state) => r is Ok && final(self).done(
                    old(self),
                    state,
                    seq![transfer_record(old(self).package(), spec_zero_address(), to, value@)],
                ),
                Err(e) => r == Err::<(), ApiError>(e) && final(self).untouched(old(self)),
            },
    {
        let ret = self.token.mint(&to, value);
        if ret.is_ok() {
            self.record(&ERC20Event::Transfer { from: zero_address(), to: to, value });
        }
        ret
    }

    /// Destroys `value` tokens of `from`, and records them as sent to the
    /// zero address that stands for no contract.
    pub fn burn(&mut self, from: Key, value: U256) -> (r: Result<(), ApiError>)
        requires
            old(self).wf(),
        ensures
            match old(self)@.burn(from, value@) {
                Ok(state) => r is Ok && final(self).done(
                    old(self),
                    state,
                    seq![transfer_record(old(self).package(), from, spec_zero_address(), value@)],
                ),
                Err(e) => r == Err::<(), ApiError>(e) && final(self).untouched(old(self)),
            },
    {
        let ret = self.token.burn(&from, value);
        if ret.is_ok() {
            self.record(&ERC20Event::Transfer { from: from, to: zero_address(), value });
        }
        ret
    }
}

} // verus!
