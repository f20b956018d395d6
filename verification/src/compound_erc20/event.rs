//! The events that the guarded ledger reports, and their records.

use vstd::prelude::*;
use crate::compound_erc20::data::{get_package_hash, ContractData};
use crate::key::Key;
use crate::record::{append, field, log_view, outside_package_text, record_of, Field};
use crate::text::hex_lower;
use crate::u256::{decimal, U256};

verus! {

/// What the ledger reports of itself.
#[derive(Clone, Copy, Debug)]
pub enum ERC20Event {
    /// `owner` set the allowance of `spender` to `value`.
    Approval { owner: Key, spender: Key, value: U256 },
    /// `value` tokens went from `from` to `to`.
    Transfer { from: Key, to: Key, value: U256 },
}

/// The record of an approval issued by the package `package`.
pub open spec fn approval_record(package: Seq<u8>, owner: Key, spender: Key, value: nat) -> Seq<
    (Seq<char>, Seq<char>),
> {
    seq![
        ("contract_package_hash"@, hex_lower(package)),
        ("event_type"@, "approve"@),
        ("owner"@, owner.spec_text()),
        ("spender"@, spender.spec_text()),
        ("value"@, decimal(value)),
    ]
}

/// The record of a transfer issued by the package `package`.
pub open spec fn transfer_record(package: Seq<u8>, from: Key, to: Key, value: nat) -> Seq<
    (Seq<char>, Seq<char>),
> {
    seq![
        ("contract_package_hash"@, hex_lower(package)),
        ("event_type"@, "transfer"@),
        ("from"@, from.spec_text()),
        ("to"@, to.spec_text()),
        ("value"@, decimal(value)),
    ]
}

impl ERC20Event {
    /// The name of the kind of event.
    pub open spec fn spec_event_type(self) -> Seq<char> {
        match self {
            ERC20Event::Approval { .. } => "approve"@,
            ERC20Event::Transfer { .. } => "transfer"@,
        }
    }

    /// The record of the event, issued by the package `package`: the
    /// package, the kind of event, then the event's own fields.
    pub open spec fn spec_record(self, package: Seq<u8>) -> Seq<(Seq<char>, Seq<char>)> {
        match self {
            ERC20Event::Approval { owner, spender, value } => approval_record(
                package,
                owner,
                spender,
                value@,
            ),
            ERC20Event::Transfer { from, to, value } => transfer_record(package, from, to, value@),
        }
    }

    /// The name of the kind of event.
    pub fn event_type(&self) -> (r: String)
        ensures
            r@ == self.spec_event_type(),
    {
        match self {
            ERC20Event::Approval { owner: _, spender: _, value: _ } => "approve",
            ERC20Event::Transfer { from: _, to: _, value: _ } => "transfer",
        }.to_owned()
    }
}

/// The records in which `erc20_event` is handed to the event log, issued
/// by the package that `data` names: one record for one event.
pub fn emit(data: &ContractData, erc20_event: &ERC20Event) -> (events: Vec<Vec<Field>>)
    ensures
        log_view(events@) == seq![erc20_event.spec_record(data.spec_package_hash()@)],
{
    let mut events: Vec<Vec<Field>> = Vec::new();
    let package = get_package_hash(data);
    match erc20_event {
        ERC20Event::Approval { owner, spender, value } => {
            let event = record_of(
                field("contract_package_hash", outside_package_text(&package)),
                field("event_type", erc20_event.event_type()),
                field("owner", owner.to_string()),
                field("spender", spender.to_string()),
                field("value", value.to_string()),
            );
            append(&mut events, event);
        },
        ERC20Event::Transfer { from, to, value } => {
            let event = record_of(
                field("contract_package_hash", outside_package_text(&package)),
                field("event_type", erc20_event.event_type()),
                field("from", from.to_string()),
                field("to", to.to_string()),
                field("value", value.to_string()),
            );
            append(&mut events, event);
        },
    };
    assert(log_view(events@) =~= seq![erc20_event.spec_record(data.spec_package_hash()@)]);
    events
}

} // verus!
