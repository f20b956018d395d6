//! The token ledger with its events: balances, allowances and nonces, moved
//! and changed by checked arithmetic.

use vstd::prelude::*;
use crate::api_error::ApiError;
use crate::contract_utils::data::key_text;
use crate::key::{zero_addr, Key};
use crate::ledger::{Ledger, LedgerState, Outcome, REJECTED};
use crate::record::{append, field, log_view, outside_package_text, record_of, Field};
use crate::text::hex_lower;
use crate::u256::{decimal, pow256, U256};

verus! {

/// The failures of the ledger's own; each aborts the invocation. A failure
/// of arithmetic carries the place where it arose.
#[derive(Clone, Copy, Debug, PartialEq, Eq, Structural)]
pub enum Error {
    /// A signed approval was presented after its deadline.
    UniswapV2CoreERC20EXPIRED,
    /// A signed approval did not verify.
    UniswapV2CoreERC20SignatureVerificationFailed,
    /// An allowance would grow beyond the largest amount.
    UniswapV2CoreERC20OverFlow1,
    /// A balance would grow beyond the largest amount when tokens are made.
    UniswapV2CoreERC20OverFlow2,
    /// The total supply would grow beyond the largest amount.
    UniswapV2CoreERC20OverFlow3,
    /// The recipient's balance would grow beyond the largest amount.
    UniswapV2CoreERC20OverFlow4,
    /// An allowance would be lowered by more than it holds.
    UniswapV2CoreERC20UnderFlow1,
    /// A spender would spend more than the allowance holds.
    UniswapV2CoreERC20UnderFlow2,
    /// A balance would fall below zero when tokens are destroyed.
    UniswapV2CoreERC20UnderFlow3,
    /// The total supply would fall below zero.
    UniswapV2CoreERC20UnderFlow4,
    /// The sender would send more than the balance holds.
    UniswapV2CoreERC20UnderFlow5,
}

impl Error {
    /// The code of the failure.
    pub open spec fn spec_code(self) -> u16 {
        match self {
            Error::UniswapV2CoreERC20EXPIRED => 0,
            Error::UniswapV2CoreERC20SignatureVerificationFailed => 1,
            Error::UniswapV2CoreERC20OverFlow1 => 2,
            Error::UniswapV2CoreERC20OverFlow2 => 3,
            Error::UniswapV2CoreERC20OverFlow3 => 4,
            Error::UniswapV2CoreERC20OverFlow4 => 5,
            Error::UniswapV2CoreERC20UnderFlow1 => 6,
            Error::UniswapV2CoreERC20UnderFlow2 => 7,
            Error::UniswapV2CoreERC20UnderFlow3 => 8,
            Error::UniswapV2CoreERC20UnderFlow4 => 9,
            Error::UniswapV2CoreERC20UnderFlow5 => 10,
        }
    }

    /// The abort that the failure causes.
    pub open spec fn abort(self) -> ApiError {
        ApiError::User(self.spec_code())
    }

    /// Whether an amount would have exceeded the largest amount.
    pub open spec fn is_overflow(self) -> bool {
        2 <= self.spec_code() <= 5
    }

    /// Whether an amount would have fallen below zero.
    pub open spec fn is_underflow(self) -> bool {
        6 <= self.spec_code() <= 10
    }

    /// The code of the failure.
    pub fn code(&self) -> (r: u16)
        ensures
            r == self.spec_code(),
    {
        match self {
            Error::UniswapV2CoreERC20EXPIRED => 0,
            Error::UniswapV2CoreERC20SignatureVerificationFailed => 1,
            Error::UniswapV2CoreERC20OverFlow1 => 2,
            Error::UniswapV2CoreERC20OverFlow2 => 3,
            Error::UniswapV2CoreERC20OverFlow3 => 4,
            Error::UniswapV2CoreERC20OverFlow4 => 5,
            Error::UniswapV2CoreERC20UnderFlow1 => 6,
            Error::UniswapV2CoreERC20UnderFlow2 => 7,
            Error::UniswapV2CoreERC20UnderFlow3 => 8,
            Error::UniswapV2CoreERC20UnderFlow4 => 9,
            Error::UniswapV2CoreERC20UnderFlow5 => 10,
        }
    }
}

impl From<Error> for ApiError {
    fn from(error: Error) -> (r: ApiError) {
        ApiError::User(error.code())
    }
}

impl vstd::std_specs::convert::FromSpecImpl<Error> for ApiError {
    open spec fn obeys_from_spec() -> bool {
        true
    }

    open spec fn from_spec(error: Error) -> ApiError {
        error.abort()
    }
}

/// What the ledger reports of itself.
#[derive(Clone, Copy, Debug)]
pub enum ERC20Event {
    /// `owner` set the allowance of `spender` to `value`.
    Approval { owner: Key, spender: Key, value: U256 },
    /// `value` tokens went from `from` to `to`.
    Transfer { from: Key, to: Key, value: U256 },
}

/// The identifier that stands for nobody where tokens are made or destroyed:
/// the account whose hash is all zero.
pub open spec fn nobody() -> Key {
    Key::Account(zero_addr())
}

/// The record of an approval issued by the package `package`.
pub open spec fn approval_record(package: Seq<u8>, owner: Key, spender: Key, value: nat) -> Seq<
    (Seq<char>, Seq<char>),
> {
    seq![
        ("contract_package_hash"@, hex_lower(package)),
        ("event_type"@, "approve"@),
        ("owner"@, owner.spec_text()),
        ("spender"@, spender.spec_text()),
        ("value"@, decimal(value)),
    ]
}

/// The record of a transfer issued by the package `package`.
pub open spec fn transfer_record(package: Seq<u8>, from: Key, to: Key, value: nat) -> Seq<
    (Seq<char>, Seq<char>),
> {
    seq![
        ("contract_package_hash"@, hex_lower(package)),
        ("event_type"@, "transfer"@),
        ("from"@, from.spec_text()),
        ("to"@, to.spec_text()),
        ("value"@, decimal(value)),
    ]
}

/// The records that a move of `amount` from `sender` to `recipient` leaves:
/// one transfer, or none where nothing was moved.
pub open spec fn moved_records(package: Seq<u8>, sender: Key, recipient: Key, amount: nat) -> Seq<
    Seq<(Seq<char>, Seq<char>)>,
> {
    if sender == recipient || amount == 0 {
        Seq::empty()
    } else {
        seq![transfer_record(package, sender, recipient, amount)]
    }
}

/// The records that a transfer by `spender` on behalf of `owner` leaves
/// where it does not abort: the transfer, and after it the approval of the
/// lowered allowance unless the operation refused.
pub open spec fn spent_records(
    package: Seq<u8>,
    before: LedgerState,
    spender: Key,
    owner: Key,
    recipient: Key,
    amount: nat,
) -> Seq<Seq<(Seq<char>, Seq<char>)>> {
    if owner == recipient || amount == 0 {
        Seq::empty()
    } else if owner != spender {
        seq![
            transfer_record(package, owner, recipient, amount),
            approval_record(
                package,
                owner,
                spender,
                (before.allowance(owner, spender) - amount) as nat,
            ),
        ]
    } else {
        seq![transfer_record(package, owner, recipient, amount)]
    }
}

impl ERC20Event {
    /// The name of the kind of event.
    pub open spec fn spec_event_type(self) -> Seq<char> {
        match self {
            ERC20Event::Approval { .. } => "approve"@,
            ERC20Event::Transfer { .. } => "transfer"@,
        }
    }

    /// The record of the event, issued by the package `package`: the
    /// package, the kind of event, then the event's own fields.
    pub open spec fn spec_record(self, package: Seq<u8>) -> Seq<(Seq<char>, Seq<char>)> {
        match self {
            ERC20Event::Approval { owner, spender, value } => approval_record(
                package,
                owner,
                spender,
                value@,
            ),
            ERC20Event::Transfer { from, to, value } => transfer_record(package, from, to, value@),
        }
    }

    /// The name of the kind of event.
    pub fn event_type(&self) -> (r: String)
        ensures
            r@ == self.spec_event_type(),
    {
        match self {
            ERC20Event::Approval { owner: _, spender: _, value: _ } => "approve",
            ERC20Event::Transfer { from: _, to: _, value: _ } => "transfer",
        }.to_owned()
    }
}

/// A token ledger in the hands of one caller, for the length of one
/// invocation: the state of the token, who is calling, and the records of
/// what was done.
pub struct ERC20 {
    caller: Key,
    hash: Key,
    package_hash: [u8; 32],
    ledger: Ledger,
    events: Vec<Vec<Field>>,
}

impl View for ERC20 {
    type V = LedgerState;

    /// What the token's ledger holds.
    closed spec fn view(&self) -> LedgerState {
        self.ledger@
    }
}

impl ERC20 {
    /// The ledger is well formed. Every value that this module hands out
    /// is, and its methods keep it so.
    pub closed spec fn wf(&self) -> bool {
        self.ledger.wf()
    }

    /// Who is calling.
    pub closed spec fn spec_caller(&self) -> Key {
        self.caller
    }

    /// The contract that holds the ledger.
    pub closed spec fn spec_hash(&self) -> Key {
        self.hash
    }

    /// The package that issues the ledger's events.
    pub closed spec fn spec_package_hash(&self) -> [u8; 32] {
        self.package_hash
    }

    /// The token's state and description.
    pub closed spec fn spec_ledger(&self) -> Ledger {
        self.ledger
    }

    /// The records written so far, oldest first.
    pub closed spec fn events(&self) -> Seq<Seq<(Seq<char>, Seq<char>)>> {
        log_view(self.events@)
    }

    /// The two values belong to the same invocation on the same token: the
    /// caller, the contract, the package and the token's description agree.
    pub open spec fn same_context(&self, other: &ERC20) -> bool {
        &&& self.spec_caller() == other.spec_caller()
        &&& self.spec_hash() == other.spec_hash()
        &&& self.spec_package_hash() == other.spec_package_hash()
        &&& self.spec_ledger().same_token(&other.spec_ledger())
    }

    /// What an operation leaves that did not abort: the state `state`, and
    /// the records `records` after those that were there.
    pub open spec fn done(&self, before: &ERC20, state: LedgerState, records: Seq<
        Seq<(Seq<char>, Seq<char>)>,
    >) -> bool {
        &&& self.wf()
        &&& self.same_context(before)
        &&& self@ == state
        &&& self.events() == before.events() + records
    }

    /// What an operation leaves that aborted: everything as it was.
    pub open spec fn untouched(&self, before: &ERC20) -> bool {
        &&& self.wf()
        &&& self.same_context(before)
        &&& self@ == before@
        &&& self.events() == before.events()
    }

    /// The ledger `ledger` in the hands of `caller`, with no record written.
    pub fn at(caller: Key, hash: Key, package_hash: [u8; 32], ledger: Ledger) -> (r: ERC20)
        requires
            ledger.wf(),
        ensures
            r.wf(),
            r@ == ledger@,
            r.spec_ledger() == ledger,
            r.spec_caller() == caller,
            r.spec_hash() == hash,
            r.spec_package_hash() == package_hash,
            r.events() == Seq::<Seq<(Seq<char>, Seq<char>)>>::empty(),
    {
        let r = ERC20 { caller, hash, package_hash, ledger, events: Vec::new() };
        assert(r.events() =~= Seq::<Seq<(Seq<char>, Seq<char>)>>::empty());
        r
    }

    /// A new token with the given description and total supply, installed
    /// by `caller`, whose nonce starts at zero. Nobody holds anything yet.
    pub fn init(
        caller: Key,
        name: String,
        symbol: String,
        decimals: u8,
        initial_supply: U256,
        contract_hash: Key,
        package_hash: [u8; 32],
    ) -> (r: Result<ERC20, ApiError>)
        ensures
            match key_text(caller) {
                Some(text) => r is Ok && {
                    let token = r.unwrap();
                    &&& token.wf()
                    &&& token@ == LedgerState::empty(initial_supply@).with_nonce(text, 0)
                    &&& token.spec_caller() == caller
                    &&& token.spec_hash() == contract_hash
                    &&& token.spec_package_hash() == package_hash
                    &&& token.spec_ledger().spec_name() == name@
                    &&& token.spec_ledger().spec_symbol() == symbol@
                    &&& token.spec_ledger().spec_decimals() == decimals
                    &&& token.events() == Seq::<Seq<(Seq<char>, Seq<char>)>>::empty()
                },
                None => r == Err::<ERC20, ApiError>(ApiError::UnexpectedKeyVariant),
            },
    {
        let mut ledger = Ledger::new(name, symbol, decimals, initial_supply);
        match ledger.write_nonce(&caller, U256::from_u64(0)) {
            Ok(()) => Ok(ERC20::at(caller, contract_hash, package_hash, ledger)),
            Err(e) => Err(e),
        }
    }

    /// Who is calling.
    pub fn get_caller(&self) -> (r: Key)
        ensures
            r == self.spec_caller(),
    {
        self.caller
    }

    /// The contract that holds the ledger.
    pub fn get_hash(&self) -> (r: Key)
        ensures
            r == self.spec_hash(),
    {
        self.hash
    }

    /// The package that issues the ledger's events.
    pub fn get_package_hash(&self) -> (r: [u8; 32])
        ensures
            r == self.spec_package_hash(),
    {
        self.package_hash
    }

    /// The token's state and description.
    pub fn ledger(&self) -> (r: &Ledger)
        ensures
            *r == self.spec_ledger(),
            r@ == self@,
    {
        &self.ledger
    }

    /// The records written so far, oldest first.
    pub fn records(&self) -> (r: &Vec<Vec<Field>>)
        ensures
            log_view(r@) == self.events(),
    {
        &self.events
    }

    /// Writes the record of `erc20_event` to the log.
    pub fn emit(&mut self, erc20_event: &ERC20Event)
        requires
            old(self).wf(),
        ensures
            final(self).done(
                old(self),
                old(self)@,
                seq![erc20_event.spec_record(old(self).spec_package_hash()@)],
            ),
    {
        let record = match erc20_event {
            ERC20Event::Approval { owner, spender, value } => record_of(
                field("contract_package_hash", outside_package_text(&self.package_hash)),
                field("event_type", erc20_event.event_type()),
                field("owner", owner.to_string()),
                field("spender", spender.to_string()),
                field("value", value.to_string()),
            ),
            ERC20Event::Transfer { from, to, value } => record_of(
                field("contract_package_hash", outside_package_text(&self.package_hash)),
                field("event_type", erc20_event.event_type()),
                field("from", from.to_string()),
                field("to", to.to_string()),
                field("value", value.to_string()),
            ),
        };
        append(&mut self.events, record);
        assert(self.events() =~= old(self).events() + seq![
            erc20_event.spec_record(old(self).spec_package_hash()@),
        ]);
    }

    /// The balance of `owner`.
    pub fn balance_of(&self, owner: Key) -> (r: Result<U256, ApiError>)
        requires
            self.wf(),
        ensures
            match r {
                Ok(amount) => key_text(owner) is Some && amount@ == self@.balance_of(owner),
                Err(e) => key_text(owner) is None && e == ApiError::UnexpectedKeyVariant,
            },
    {
        self.ledger.balance_of(&owner)
    }

    /// The nonce of `owner`.
    pub fn nonce(&self, owner: Key) -> (r: Result<U256, ApiError>)
        requires
            self.wf(),
        ensures
            match key_text(owner) {
                Some(text) => r is Ok && r.unwrap()@ == self@.nonce(text),
                None => r == Err::<U256, ApiError>(ApiError::UnexpectedKeyVariant),
            },
    {
        self.ledger.nonce(&owner)
    }

    /// Moves `amount` from the caller to `recipient`.
    pub fn transfer(&mut self, recipient: Key, amount: U256) -> (r: Result<
        Result<(), u32>,
        ApiError,
    >)
        requires
            old(self).wf(),
        ensures
            match old(self)@.transfer(old(self).spec_caller(), recipient, amount@) {
                Ok(state) => r == Ok::<Result<(), u32>, ApiError>(Ok(())) && final(self).done(
                    old(self),
                    state,
                    moved_records(
                        old(self).spec_package_hash()@,
                        old(self).spec_caller(),
                        recipient,
                        amount@,
                    ),
                ),
                Err(e) => r == Err::<Result<(), u32>, ApiError>(e) && final(self).untouched(
                    old(self),
                ),
            },
    {
        let sender = self.get_caller();
        self.make_transfer(sender, recipient, amount)
    }

    /// Sets the allowance of `spender` over the caller's tokens to `amount`.
    pub fn approve(&mut self, spender: Key, amount: U256)
        requires
            old(self).wf(),
        ensures
            final(self).done(
                old(self),
                old(self)@.with_allowance(old(self).spec_caller(), spender, amount@),
                seq![
                    approval_record(
                        old(self).spec_package_hash()@,
                        old(self).spec_caller(),
                        spender,
                        amount@,
                    ),
                ],
            ),
            final(self)@.allowance(old(self).spec_caller(), spender) == amount@,
    {
        let owner = self.get_caller();
        self._approve(owner, spender, amount);
    }

    /// Sets the allowance of `spender` over the tokens of `owner` to
    /// `amount`, over whatever it was, and records the approval.
    pub fn _approve(&mut self, owner: Key, spender: Key, amount: U256)
        requires
            old(self).wf(),
        ensures
            final(self).done(
                old(self),
                old(self)@.with_allowance(owner, spender, amount@),
                seq![approval_record(old(self).spec_package_hash()@, owner, spender, amount@)],
            ),
            final(self)@.allowance(owner, spender) == amount@,
    {
        self.ledger.approve(&owner, &spender, amount);
        self.emit(&ERC20Event::Approval { owner: owner, spender: spender, value: amount });
    }

    /// The amount that `spender` may still move out of `owner`'s balance.
    pub fn allowance(&self, owner: Key, spender: Key) -> (r: U256)
        requires
            self.wf(),
        ensures
            r@ == self@.allowance(owner, spender),
    {
        self.ledger.allowance(&owner, &spender)
    }

    /// Raises the allowance of `spender` over the caller's tokens by `amount`.
    pub fn increase_allowance(&mut self, spender: Key, amount: U256) -> (r: Result<
        Result<(), u32>,
        ApiError,
    >)
        requires
            old(self).wf(),
        ensures
            match old(self)@.increase_allowance(old(self).spec_caller(), spender, amount@) {
                Ok(step) => r == Ok::<Result<(), u32>, ApiError>(step.result) && final(self).done(
                    old(self),
                    step.state,
                    if step.result is Ok {
                        seq![
                            approval_record(
                                old(self).spec_package_hash()@,
                                old(self).spec_caller(),
                                spender,
                                old(self)@.allowance(old(self).spec_caller(), spender) + amount@,
                            ),
                        ]
                    } else {
                        Seq::empty()
                    },
                ),
                Err(e) => r == Err::<Result<(), u32>, ApiError>(e) && final(self).untouched(
                    old(self),
                ),
            },
    {
        let owner = self.get_caller();
        match self.ledger.increase_allowance(&owner, &spender, amount) {
            Ok(Ok(())) => {
                let new_allowance = self.ledger.allowance(&owner, &spender);
                self.emit(
                    &ERC20Event::Approval { owner: owner, spender: spender, value: new_allowance },
                );
                Ok(Ok(()))
            },
            Ok(Err(code)) => {
                assert(self.events() =~= old(self).events() + Seq::empty());
                Ok(Err(code))
            },
            Err(e) => Err(e),
        }
    }

    /// Lowers the allowance of `spender` over the caller's tokens by `amount`.
    pub fn decrease_allowance(&mut self, spender: Key, amount: U256) -> (r: Result<
        Result<(), u32>,
        ApiError,
    >)
        requires
            old(self).wf(),
        ensures
            match old(self)@.decrease_allowance(old(self).spec_caller(), spender, amount@) {
                Ok(step) => r == Ok::<Result<(), u32>, ApiError>(step.result) && final(self).done(
                    old(self),
                    step.state,
                    if step.result is Ok {
                        seq![
                            approval_record(
                                old(self).spec_package_hash()@,
                                old(self).spec_caller(),
                                spender,
                                (old(self)@.allowance(old(self).spec_caller(), spender)
                                    - amount@) as nat,
                            ),
                        ]
                    } else {
                        Seq::empty()
                    },
                ),
                Err(e) => r == Err::<Result<(), u32>, ApiError>(e) && final(self).untouched(
                    old(self),
                ),
            },
    {
        let owner = self.get_caller();
        match self.ledger.decrease_allowance(&owner, &spender, amount) {
            Ok(Ok(())) => {
                let new_allowance = self.ledger.allowance(&owner, &spender);
                self.emit(
                    &ERC20Event::Approval { owner: owner, spender: spender, value: new_allowance },
                );
                Ok(Ok(()))
            },
            Ok(Err(code)) => {
                assert(self.events() =~= old(self).events() + Seq::empty());
                Ok(Err(code))
            },
            Err(e) => Err(e),
        }
    }

    /// Moves `amount` from `owner` to `recipient` on behalf of the caller,
    /// and takes it off the allowance that `owner` granted to the caller.
    /// Where the caller is the owner, the tokens are moved and recorded, the
    /// allowance is left alone, and the operation refuses with a code: that
    /// refusal is handed back, not an abort, so the move stands.
    pub fn transfer_from(&mut self, owner: Key, recipient: Key, amount: U256) -> (r: Result<
        Result<(), u32>,
        ApiError,
    >)
        requires
            old(self).wf(),
        ensures
            match old(self)@.transfer_from(old(self).spec_caller(), owner, recipient, amount@) {
                Ok(step) => r == Ok::<Result<(), u32>, ApiError>(step.result) && final(self).done(
                    old(self),
                    step.state,
                    spent_records(
                        old(self).spec_package_hash()@,
                        old(self)@,
                        old(self).spec_caller(),
                        owner,
                        recipient,
                        amount@,
                    ),
                ),
                Err(e) => r == Err::<Result<(), u32>, ApiError>(e) && final(self).untouched(
                    old(self),
                ),
            },
    {
        let spender = self.get_caller();
        let moved = owner != recipient && !amount.is_zero();
        match self.ledger.transfer_from(&spender, &owner, &recipient, amount) {
            Ok(ret) => {
                if moved {
                    self.emit(&ERC20Event::Transfer { from: owner, to: recipient, value: amount });
                    if ret.is_ok() {
                        let new_allowance = self.ledger.allowance(&owner, &spender);
                        self.emit(
                            &ERC20Event::Approval {
                                owner: owner,
                                spender: spender,
                                value: new_allowance,
                            },
                        );
                    }
                }
                assert(self.events() =~= old(self).events() + spent_records(
                    old(self).spec_package_hash()@,
                    old(self)@,
                    old(self).spec_caller(),
                    owner,
                    recipient,
                    amount@,
                ));
                Ok(ret)
            },
            Err(e) => Err(e),
        }
    }

    /// Makes `amount` new tokens for `recipient`, and records them as sent
    /// by nobody.
    pub fn mint(&mut self, recipient: Key, amount: U256) -> (r: Result<(), ApiError>)
        requires
            old(self).wf(),
        ensures
            match old(self)@.mint(recipient, amount@) {
                Ok(state) => r is Ok && final(self).done(
                    old(self),
                    state,
                    seq![
                        transfer_record(
                            old(self).spec_package_hash()@,
                            nobody(),
                            recipient,
                            amount@,
                        ),
                    ],
                ),
                Err(e) => r == Err::<(), ApiError>(e) && final(self).untouched(old(self)),
            },
    {
        match self.ledger.mint(&recipient, amount) {
            Ok(()) => {
                let address_0 = Key::Account([0u8; 32]);
                self.emit(&ERC20Event::Transfer { from: address_0, to: recipient, value: amount });
                Ok(())
            },
            Err(e) => Err(e),
        }
    }

    /// Destroys `amount` tokens of `recipient`, and records them as sent to
    /// nobody.
    pub fn burn(&mut self, recipient: Key, amount: U256) -> (r: Result<(), ApiError>)
        requires
            old(self).wf(),
        ensures
            match old(self)@.burn(recipient, amount@) {
                Ok(state) => r is Ok && final(self).done(
                    old(self),
                    state,
                    seq![
                        transfer_record(
                            old(self).spec_package_hash()@,
                            recipient,
                            nobody(),
                            amount@,
                        ),
                    ],
                ),
                Err(e) => r == Err::<(), ApiError>(e) && final(self).untouched(old(self)),
            },
    {
        match self.ledger.burn(&recipient, amount) {
            Ok(()) => {
                let address_0 = Key::Account([0u8; 32]);
                self.emit(&ERC20Event::Transfer { from: recipient, to: address_0, value: amount });
                Ok(())
            },
            Err(e) => Err(e),
        }
    }

    /// Raises the nonce of `recipient` by one.
    pub fn set_nonce(&mut self, recipient: Key) -> (r: Result<(), ApiError>)
        requires
            old(self).wf(),
            key_text(recipient) is Some ==> old(self)@.nonce(key_text(recipient).unwrap()) + 1
                < pow256(),
        ensures
            match key_text(recipient) {
                Some(text) => r is Ok && final(self).done(
                    old(self),
                    old(self)@.with_nonce(text, old(self)@.nonce(text) + 1),
                    Seq::empty(),
                ),
                None => r == Err::<(), ApiError>(ApiError::UnexpectedKeyVariant)
                    && final(self).untouched(old(self)),
            },
    {
        let r = self.ledger.set_nonce(&recipient);
        assert(self.events() =~= old(self).events() + Seq::empty());
        r
    }

    /// Moves `amount` from `sender` to `recipient` and records the transfer.
    /// Nothing is moved or recorded where the two are the same or the
    /// amount is zero.
    pub fn make_transfer(&mut self, sender: Key, recipient: Key, amount: U256) -> (r: Result<
        Result<(), u32>,
        ApiError,
    >)
        requires
            old(self).wf(),
        ensures
            match old(self)@.transfer(sender, recipient, amount@) {
                Ok(state) => r == Ok::<Result<(), u32>, ApiError>(Ok(())) && final(self).done(
                    old(self),
                    state,
                    moved_records(old(self).spec_package_hash()@, sender, recipient, amount@),
                ),
                Err(e) => r == Err::<Result<(), u32>, ApiError>(e) && final(self).untouched(
                    old(self),
                ),
            },
    {
        if sender != recipient && !amount.is_zero() {
            match self.ledger.transfer(&sender, &recipient, amount) {
                Ok(()) => {
                    self.emit(&ERC20Event::Transfer { from: sender, to: recipient, value: amount });
                },
                Err(e) => {
                    return Err(e);
                },
            }
        } else {
            assert(self.events() =~= old(self).events() + Seq::empty());
        }
        Ok(Ok(()))
    }

    /// The number of tokens in existence.
    pub fn total_supply(&self) -> (r: U256)
        ensures
            r@ == self@.total_supply,
    {
        self.ledger.total_supply()
    }

    /// The token's name.
    pub fn name(&self) -> (r: String)
        ensures
            r@ == self.spec_ledger().spec_name(),
    {
        self.ledger.name()
    }

    /// The token's symbol.
    pub fn symbol(&self) -> (r: String)
        ensures
            r@ == self.spec_ledger().spec_symbol(),
    {
        self.ledger.symbol()
    }

    /// The number of decimal places in which amounts are shown.
    pub fn decimals(&self) -> (r: u8)
        ensures
            r == self.spec_ledger().spec_decimals(),
    {
        self.ledger.decimals()
    }
}

} // verus!
