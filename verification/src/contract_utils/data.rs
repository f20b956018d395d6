//! Dictionaries addressed by text keys, and the derivation of those keys
//! from account identifiers and from pairs of values.

use vstd::prelude::*;
use crate::api_error::ApiError;
use crate::bytesrepr::ToBytes;
use crate::key::Key;
use crate::text::{blake2b_digest, hex_lower, outside_blake2b, outside_hex};
use crate::u256::{decimal, U256};

verus! {

/// Formats the account hash with the `Display` of
/// `casper_types::account::AccountHash`. Claims that the text is the 32 bytes
/// in lower-case hexadecimal, with nothing before or after.
#[verifier::external_body]
fn outside_account_text(addr: &[u8; 32]) -> (r: String)
    ensures
        r@ == hex_lower(addr@),
{
    casper_types::account::AccountHash::new(*addr).to_string()
}

/// The text key of an account identifier: its 32 bytes in hexadecimal. A key
/// that names neither an account nor a contract has none.
pub open spec fn key_text(key: Key) -> Option<Seq<char>> {
    match key {
        Key::Account(a) => Some(hex_lower(a@)),
        Key::Hash(a) => Some(hex_lower(a@)),
        Key::Dictionary(_) => None,
    }
}

/// The text key of a pair of values: the hexadecimal text of the digest of
/// the first value's bytes followed by the second's.
pub open spec fn pair_text(first: Seq<u8>, second: Seq<u8>) -> Seq<char> {
    hex_lower(blake2b_digest(first + second))
}

/// The text key of an account or contract identifier. The key of a
/// dictionary slot is refused.
pub fn key_to_str(key: &Key) -> (r: Result<String, ApiError>)
    ensures
        match r {
            Ok(text) => key_text(*key) == Some(text@),
            Err(e) => e == ApiError::UnexpectedKeyVariant && key_text(*key) is None,
        },
{
    match key {
        Key::Account(account) => Ok(outside_account_text(account)),
        Key::Hash(package) => Ok(outside_hex(package.as_slice())),
        _ => Err(ApiError::UnexpectedKeyVariant),
    }
}

/// The text key of the pair given by the serialised forms `first` and `second`.
fn bytes_to_str(first: Vec<u8>, second: Vec<u8>) -> (r: String)
    ensures
        r@ == pair_text(first@, second@),
{
    let mut bytes_a = first;
    let mut bytes_b = second;
    bytes_a.append(&mut bytes_b);
    let bytes = outside_blake2b(bytes_a.as_slice());
    outside_hex(bytes.as_slice())
}

/// The text key of a pair of key-like values, the first before the second.
pub fn keys_to_str<U: ToBytes, V: ToBytes>(key_a: &U, key_b: &V) -> (r: String)
    ensures
        r@ == pair_text(key_a.serialised(), key_b.serialised()),
{
    bytes_to_str(key_a.to_bytes(), key_b.to_bytes())
}

/// The text key of a pair of values, the first before the second.
pub fn values_to_str<T: ToBytes, U: ToBytes>(value_a: &T, value_b: &U) -> (r: String)
    ensures
        r@ == pair_text(value_a.serialised(), value_b.serialised()),
{
    bytes_to_str(value_a.to_bytes(), value_b.to_bytes())
}

/// The text key of an identifier and a value, the identifier first.
pub fn key_and_value_to_str<T: ToBytes>(key: &Key, value: &T) -> (r: String)
    ensures
        r@ == pair_text(key.serialised(), value.serialised()),
{
    bytes_to_str(key.to_bytes(), value.to_bytes())
}

/// Compares two texts with the `==` of `str`. Claims that it tells whether
/// they hold the same characters.
#[verifier::external_body]
fn outside_same_text(a: &str, b: &str) -> (r: bool)
    ensures
        r == (a@ == b@),
{
    a == b
}

/// Formats a truth value with the `Display` of `bool`. Claims that the text
/// is `true` or `false`.
#[verifier::external_body]
fn outside_bool_text(flag: bool) -> (r: String)
    ensures
        r@ == bool_text(flag),
{
    flag.to_string()
}

/// Formats a number with the `Display` of `u128`. Claims that the text is
/// its decimal numeral.
#[verifier::external_body]
fn outside_number_text(number: u128) -> (r: String)
    ensures
        r@ == decimal(number as nat),
{
    number.to_string()
}

/// The text of a truth value.
pub open spec fn bool_text(flag: bool) -> Seq<char> {
    if flag {
        "true"@
    } else {
        "false"@
    }
}

/// The kind of value that an entry point of another contract hands back.
#[derive(Clone, Copy, Debug, PartialEq, Eq, Structural)]
pub enum ReturnKind {
    /// An amount.
    Amount,
    /// An identifier.
    Identifier,
    /// A text.
    Text,
    /// A truth value and a 128-bit number.
    Flagged,
}

/// A value that an entry point of another contract handed back.
pub enum Returned {
    /// An amount.
    Amount(U256),
    /// An identifier.
    Identifier(Key),
    /// A text.
    Text(String),
    /// A truth value and a 128-bit number.
    Flagged(bool, u128),
}

impl Returned {
    /// The kind of the value.
    pub open spec fn kind(self) -> ReturnKind {
        match self {
            Returned::Amount(_) => ReturnKind::Amount,
            Returned::Identifier(_) => ReturnKind::Identifier,
            Returned::Text(_) => ReturnKind::Text,
            Returned::Flagged(_, _) => ReturnKind::Flagged,
        }
    }

    /// The value as text, followed by a colon and the name of its type.
    pub open spec fn text(self) -> Seq<char> {
        match self {
            Returned::Amount(amount) => decimal(amount@) + ":U256"@,
            Returned::Identifier(key) => key.spec_text() + ":Key"@,
            Returned::Text(text) => text@ + ":String"@,
            Returned::Flagged(flag, number) => "("@ + bool_text(flag) + ","@ + decimal(
                number as nat,
            ) + ")"@ + ":(bool,U128)"@,
        }
    }
}

/// The kind of value that the entry point `name` hands back, for the
/// entry points that can be called by name; `None` for every other name.
pub open spec fn spec_return_kind(name: Seq<char>) -> Option<ReturnKind> {
    if name == "get_gauge_weight"@
        || name == "gauge_relative_weight"@
        || name == "inflation_rate"@
        || name == "working_supply"@
        || name == "balance_of"@
        || name == "duration"@
        || name == "reward_rate"@
        || name == "balances"@
        || name == "total_supply"@
        || name == "get_balance"@
        || name == "earned"@
        || name == "allowance"@
        || name == "locked_end"@
        || name == "vested_of"@
        || name == "locked_of"@
        || name == "initial_locked"@
        || name == "start_time"@
        || name == "end_time"@
        || name == "total_claimed"@
        || name == "working_balances"@
        || name == "vested_supply"@
        || name == "user_reward_per_token_paid"@ {
        Some(ReturnKind::Amount)
    } else if name == "gauges"@
        || name == "lp_token"@ {
        Some(ReturnKind::Identifier)
    } else if name == "gauge_type_names"@ {
        Some(ReturnKind::Text)
    } else if name == "gauge_types"@
        || name == "n_gauge_types"@
        || name == "n_gauges"@ {
        Some(ReturnKind::Flagged)
    } else {
        None
    }
}

/// The kind of value to ask the entry point `function_name` for, or `None`
/// where that entry point is not to be called.
pub fn return_kind(function_name: &str) -> (r: Option<ReturnKind>)
    ensures
        r == spec_return_kind(function_name@),
{
    if outside_same_text(function_name, "get_gauge_weight")
        || outside_same_text(function_name, "gauge_relative_weight")
        || outside_same_text(function_name, "inflation_rate")
        || outside_same_text(function_name, "working_supply")
        || outside_same_text(function_name, "balance_of")
        || outside_same_text(function_name, "duration")
        || outside_same_text(function_name, "reward_rate")
        || outside_same_text(function_name, "balances")
        || outside_same_text(function_name, "total_supply")
        || outside_same_text(function_name, "get_balance")
        || outside_same_text(function_name, "earned")
        || outside_same_text(function_name, "allowance")
        || outside_same_text(function_name, "locked_end")
        || outside_same_text(function_name, "vested_of")
        || outside_same_text(function_name, "locked_of")
        || outside_same_text(function_name, "initial_locked")
        || outside_same_text(function_name, "start_time")
        || outside_same_text(function_name, "end_time")
        || outside_same_text(function_name, "total_claimed")
        || outside_same_text(function_name, "working_balances")
        || outside_same_text(function_name, "vested_supply")
        || outside_same_text(function_name, "user_reward_per_token_paid") {
        return Some(ReturnKind::Amount);
    }
    if outside_same_text(function_name, "gauges")
        || outside_same_text(function_name, "lp_token") {
        return Some(ReturnKind::Identifier);
    }
    if outside_same_text(function_name, "gauge_type_names") {
        return Some(ReturnKind::Text);
    }
    if outside_same_text(function_name, "gauge_types")
        || outside_same_text(function_name, "n_gauge_types")
        || outside_same_text(function_name, "n_gauges") {
        return Some(ReturnKind::Flagged);
    }
    None
}

/// The text in which the result of a call by name is handed on: what
/// `function_name` handed back, followed by a colon and the name of its
/// type. The text is empty where `function_name` is not an entry point that
/// can be called by name, or handed back a value of another kind than it is
/// asked for.
pub fn call_function(function_name: &str, returned: Returned) -> (data: String)
    ensures
        data@ == (if spec_return_kind(function_name@) == Some(returned.kind()) {
            returned.text()
        } else {
            Seq::<char>::empty()
        }),
{
    let kind = return_kind(function_name);
    match (kind, returned) {
        (Some(ReturnKind::Amount), Returned::Amount(ret)) => {
            let mut data = ret.to_string();
            data.append(":U256");
            data
        },
        (Some(ReturnKind::Identifier), Returned::Identifier(ret)) => {
            let mut data = ret.to_string();
            data.append(":Key");
            data
        },
        (Some(ReturnKind::Text), Returned::Text(ret)) => {
            let mut data = ret;
            data.append(":String");
            data
        },
        (Some(ReturnKind::Flagged), Returned::Flagged(flag, number)) => {
            let mut data = "(".to_owned();
            data.append(outside_bool_text(flag).as_str());
            data.append(",");
            data.append(outside_number_text(number).as_str());
            data.append(")");
            data.append(":(bool,U128)");
            data
        },
        _ => String::new(),
    }
}

/// One slot of a dictionary: the text key and the value kept under it.
pub struct Slot<V> {
    key: String,
    value: V,
}

/// The mapping that a sequence of slots stands for; a later slot wins over
/// an earlier one with the same key.
pub closed spec fn slots_map<V>(slots: Seq<Slot<V>>) -> Map<Seq<char>, V>
    decreases slots.len(),
{
    if slots.len() == 0 {
        Map::empty()
    } else {
        slots_map(slots.drop_last()).insert(slots.last().key@, slots.last().value)
    }
}

/// No two slots have the same key.
pub closed spec fn distinct_keys<V>(slots: Seq<Slot<V>>) -> bool {
    forall|i: int, j: int| 0 <= i < j < slots.len() ==> slots[i].key@ != slots[j].key@
}

/// A key is in the mapping exactly if some slot has it, and the mapping is finite.
proof fn lemma_slots_dom<V>(slots: Seq<Slot<V>>, k: Seq<char>)
    ensures
        slots_map(slots).dom().contains(k) <==> exists|i: int|
            0 <= i < slots.len() && #[trigger] slots[i].key@ == k,
        slots_map(slots).dom().finite(),
    decreases slots.len(),
{
    if slots.len() > 0 {
        let front = slots.drop_last();
        lemma_slots_dom(front, k);
        if slots_map(slots).dom().contains(k) {
            if slots.last().key@ == k {
                assert(slots[slots.len() - 1].key@ == k);
            } else {
                let i = choose|i: int| 0 <= i < front.len() && #[trigger] front[i].key@ == k;
                assert(slots[i].key@ == k);
            }
        }
        if exists|i: int| 0 <= i < slots.len() && #[trigger] slots[i].key@ == k {
            let i = choose|i: int| 0 <= i < slots.len() && #[trigger] slots[i].key@ == k;
            if i < slots.len() - 1 {
                assert(front[i].key@ == k);
            }
        }
    }
}

/// Where the keys are distinct, the mapping holds each slot's value under its key.
proof fn lemma_slots_value<V>(slots: Seq<Slot<V>>, i: int)
    requires
        distinct_keys(slots),
        0 <= i < slots.len(),
    ensures
        slots_map(slots).dom().contains(slots[i].key@),
        slots_map(slots)[slots[i].key@] == slots[i].value,
    decreases slots.len(),
{
    let front = slots.drop_last();
    if i < slots.len() - 1 {
        assert(distinct_keys(front)) by {
            assert forall|a: int, b: int| 0 <= a < b < front.len() implies front[a].key@
                != front[b].key@ by {
                assert(slots[a].key@ != slots[b].key@);
            }
        }
        lemma_slots_value(front, i);
        assert(front[i] == slots[i]);
        assert(slots[i].key@ != slots[slots.len() - 1].key@);
    }
}

/// Replacing the value of slot `i` is an insertion under that slot's key.
proof fn lemma_slots_update<V>(before: Seq<Slot<V>>, after: Seq<Slot<V>>, i: int)
    requires
        distinct_keys(before),
        0 <= i < before.len(),
        after.len() == before.len(),
        after[i].key@ == before[i].key@,
        forall|j: int| 0 <= j < before.len() && j != i ==> after[j] == before[j],
    ensures
        distinct_keys(after),
        slots_map(after) == slots_map(before).insert(after[i].key@, after[i].value),
{
    assert(distinct_keys(after)) by {
        assert forall|a: int, b: int| 0 <= a < b < after.len() implies after[a].key@
            != after[b].key@ by {
            assert(before[a].key@ != before[b].key@);
        }
    }
    let want = slots_map(before).insert(after[i].key@, after[i].value);
    assert forall|k: Seq<char>| slots_map(after).dom().contains(k) <==> want.dom().contains(
        k,
    ) by {
        lemma_slots_dom(after, k);
        lemma_slots_dom(before, k);
        if slots_map(after).dom().contains(k) {
            let j = choose|j: int| 0 <= j < after.len() && #[trigger] after[j].key@ == k;
            assert(before[j].key@ == k);
        }
        if slots_map(before).dom().contains(k) {
            let j = choose|j: int| 0 <= j < before.len() && #[trigger] before[j].key@ == k;
            assert(after[j].key@ == k);
        }
        assert(after[i].key@ == after[i].key@);
    }
    assert forall|k: Seq<char>| slots_map(after).dom().contains(k) implies slots_map(after)[k]
        == want[k] by {
        lemma_slots_dom(after, k);
        let j = choose|j: int| 0 <= j < after.len() && #[trigger] after[j].key@ == k;
        lemma_slots_value(after, j);
        if j != i {
            lemma_slots_value(before, j);
            assert(before[j].key@ != before[i].key@);
        }
    }
    assert(slots_map(after) =~= want);
}

/// Appending a slot with a new key is an insertion under that key.
proof fn lemma_slots_push<V>(before: Seq<Slot<V>>, slot: Slot<V>)
    requires
        distinct_keys(before),
        forall|j: int| 0 <= j < before.len() ==> before[j].key@ != slot.key@,
    ensures
        distinct_keys(before.push(slot)),
        slots_map(before.push(slot)) == slots_map(before).insert(slot.key@, slot.value),
{
    let after = before.push(slot);
    assert(after.drop_last() =~= before);
    assert(after.last() == slot);
}

/// Taking slot `i` out removes that slot's key from the mapping.
proof fn lemma_slots_remove<V>(before: Seq<Slot<V>>, i: int)
    requires
        distinct_keys(before),
        0 <= i < before.len(),
    ensures
        distinct_keys(before.remove(i)),
        slots_map(before.remove(i)) == slots_map(before).remove(before[i].key@),
{
    let after = before.remove(i);
    assert(distinct_keys(after)) by {
        assert forall|a: int, b: int| 0 <= a < b < after.len() implies after[a].key@
            != after[b].key@ by {
            let a0 = if a < i { a } else { a + 1 };
            let b0 = if b < i { b } else { b + 1 };
            assert(before[a0].key@ != before[b0].key@);
        }
    }
    let want = slots_map(before).remove(before[i].key@);
    assert forall|k: Seq<char>| slots_map(after).dom().contains(k) <==> want.dom().contains(
        k,
    ) by {
        lemma_slots_dom(after, k);
        lemma_slots_dom(before, k);
        if slots_map(after).dom().contains(k) {
            let j = choose|j: int| 0 <= j < after.len() && #[trigger] after[j].key@ == k;
            let j0 = if j < i { j } else { j + 1 };
            assert(before[j0].key@ == k);
            assert(before[j0].key@ != before[i].key@);
        }
        if want.dom().contains(k) {
            let j = choose|j: int| 0 <= j < before.len() && #[trigger] before[j].key@ == k;
            let j1 = if j < i { j } else { j - 1 };
            assert(after[j1].key@ == k);
        }
    }
    assert forall|k: Seq<char>| slots_map(after).dom().contains(k) implies slots_map(after)[k]
        == want[k] by {
        lemma_slots_dom(after, k);
        let j = choose|j: int| 0 <= j < after.len() && #[trigger] after[j].key@ == k;
        let j0 = if j < i { j } else { j + 1 };
        lemma_slots_value(after, j);
        lemma_slots_value(before, j0);
        assert(before[j0].key@ != before[i].key@);
    }
    assert(slots_map(after) =~= want);
}

/// A dictionary: a named mapping from text keys to values of one type.
/// Only single slots are read and written; the slots are never listed.
pub struct Dict<V> {
    name: String,
    slots: Vec<Slot<V>>,
}

impl<V> View for Dict<V> {
    type V = Map<Seq<char>, V>;

    /// The mapping that the dictionary holds.
    closed spec fn view(&self) -> Map<Seq<char>, V> {
        slots_map(self.slots@)
    }
}

impl<V: Copy> Dict<V> {
    /// The dictionary keeps each key in one slot only. Every dictionary that
    /// this module hands out is well formed, and its methods keep it so.
    pub closed spec fn wf(&self) -> bool {
        distinct_keys(self.slots@)
    }

    /// The name that the dictionary was made under.
    pub closed spec fn spec_name(&self) -> Seq<char> {
        self.name@
    }

    /// The value under `key`, if the slot is filled.
    pub open spec fn lookup(&self, key: Seq<char>) -> Option<V> {
        if self@.dom().contains(key) {
            Some(self@[key])
        } else {
            None
        }
    }

    /// The mapping of a dictionary has finitely many slots.
    pub proof fn lemma_finite(&self)
        requires
            self.wf(),
        ensures
            self@.dom().finite(),
    {
        lemma_slots_dom(self.slots@, Seq::<char>::empty());
    }

    /// Makes the dictionary `name`, with every slot empty.
    pub fn init(name: &str) -> (r: Dict<V>)
        ensures
            r.wf(),
            r@ == Map::<Seq<char>, V>::empty(),
            r.spec_name() == name@,
    {
        Dict { name: name.to_owned(), slots: Vec::new() }
    }

    /// The index of the slot with the given key.
    fn find(&self, key: &String) -> (r: Option<usize>)
        ensures
            match r {
                Some(i) => i < self.slots@.len() && self.slots@[i as int].key@ == key@,
                None => forall|i: int| 0 <= i < self.slots@.len() ==> self.slots@[i].key@ != key@,
            },
    {
        let mut i: usize = 0;
        while i < self.slots.len()
            invariant
                i <= self.slots@.len(),
                forall|k: int| 0 <= k < i ==> self.slots@[k].key@ != key@,
            decreases self.slots@.len() - i,
        {
            if self.slots[i].key == *key {
                return Some(i);
            }
            i += 1;
        }
        None
    }

    /// Reads the slot `key`.
    pub fn get(&self, key: &str) -> (r: Option<V>)
        requires
            self.wf(),
        ensures
            r == self.lookup(key@),
    {
        let wanted = key.to_owned();
        proof {
            lemma_slots_dom(self.slots@, key@);
        }
        match self.find(&wanted) {
            Some(i) => {
                proof {
                    lemma_slots_value(self.slots@, i as int);
                }
                Some(self.slots[i].value)
            },
            None => None,
        }
    }

    /// Writes `value` into the slot `key`, over whatever was there.
    pub fn set(&mut self, key: &str, value: V)
        requires
            old(self).wf(),
        ensures
            final(self).wf(),
            final(self)@ == old(self)@.insert(key@, value),
            final(self).spec_name() == old(self).spec_name(),
    {
        let wanted = key.to_owned();
        let ghost before = self.slots@;
        match self.find(&wanted) {
            Some(i) => {
                self.slots[i] = Slot { key: wanted, value };
                proof {
                    lemma_slots_update(before, self.slots@, i as int);
                }
            },
            None => {
                let slot = Slot { key: wanted, value };
                proof {
                    lemma_slots_push(before, slot);
                }
                self.slots.push(slot);
            },
        }
    }

    /// Clears the slot `key`; a cleared slot reads as one never written.
    pub fn remove(&mut self, key: &str)
        requires
            old(self).wf(),
        ensures
            final(self).wf(),
            final(self)@ == old(self)@.remove(key@),
            final(self).spec_name() == old(self).spec_name(),
    {
        let wanted = key.to_owned();
        proof {
            lemma_slots_dom(self.slots@, key@);
        }
        let ghost before = self.slots@;
        match self.find(&wanted) {
            Some(i) => {
                proof {
                    lemma_slots_remove(before, i as int);
                }
                let _ = self.slots.remove(i);
            },
            None => {
                assert(self@ =~= self@.remove(key@));
            },
        }
    }

    /// Reads the slot of an account or contract identifier.
    pub fn get_by_key(&self, key: &Key) -> (r: Result<Option<V>, ApiError>)
        requires
            self.wf(),
        ensures
            r == (match key_text(*key) {
                Some(text) => Ok::<Option<V>, ApiError>(self.lookup(text)),
                None => Err(ApiError::UnexpectedKeyVariant),
            }),
    {
        match key_to_str(key) {
            Ok(text) => Ok(self.get(text.as_str())),
            Err(e) => Err(e),
        }
    }

    /// Reads the slot of a pair made of a value and an identifier.
    pub fn get_by_keys<U: ToBytes>(&self, keys: (&U, &Key)) -> (r: Option<V>)
        requires
            self.wf(),
        ensures
            r == self.lookup(pair_text(keys.0.serialised(), keys.1.serialised())),
    {
        let text = keys_to_str(keys.0, keys.1);
        self.get(text.as_str())
    }

    /// Writes the slot of an account or contract identifier.
    pub fn set_by_key(&mut self, key: &Key, value: V) -> (r: Result<(), ApiError>)
        requires
            old(self).wf(),
        ensures
            final(self).wf(),
            final(self).spec_name() == old(self).spec_name(),
            match key_text(*key) {
                Some(text) => r is Ok && final(self)@ == old(self)@.insert(text, value),
                None => r == Err::<(), ApiError>(ApiError::UnexpectedKeyVariant) && final(self)@
                    == old(self)@,
            },
    {
        match key_to_str(key) {
            Ok(text) => {
                self.set(text.as_str(), value);
                Ok(())
            },
            Err(e) => Err(e),
        }
    }

    /// Writes the slot of a pair made of a value and an identifier.
    pub fn set_by_keys<U: ToBytes>(&mut self, keys: (&U, &Key), value: V)
        requires
            old(self).wf(),
        ensures
            final(self).wf(),
            final(self).spec_name() == old(self).spec_name(),
            final(self)@ == old(self)@.insert(
                pair_text(keys.0.serialised(), keys.1.serialised()),
                value,
            ),
    {
        let text = keys_to_str(keys.0, keys.1);
        self.set(text.as_str(), value)
    }

    /// Writes the slot of a pair of values.
    pub fn set_by_values<T: ToBytes, U: ToBytes>(&mut self, keys: (&T, &U), value: V)
        requires
            old(self).wf(),
        ensures
            final(self).wf(),
            final(self).spec_name() == old(self).spec_name(),
            final(self)@ == old(self)@.insert(
                pair_text(keys.0.serialised(), keys.1.serialised()),
                value,
            ),
    {
        let text = values_to_str(keys.0, keys.1);
        self.set(text.as_str(), value);
    }

    /// Reads the slot of a pair of values.
    pub fn get_by_values<T: ToBytes, U: ToBytes>(&self, keys: (&T, &U)) -> (r: Option<V>)
        requires
            self.wf(),
        ensures
            r == self.lookup(pair_text(keys.0.serialised(), keys.1.serialised())),
    {
        let text = values_to_str(keys.0, keys.1);
        self.get(text.as_str())
    }

    /// Clears the slot of an account or contract identifier.
    pub fn remove_by_key(&mut self, key: &Key) -> (r: Result<(), ApiError>)
        requires
            old(self).wf(),
        ensures
            final(self).wf(),
            final(self).spec_name() == old(self).spec_name(),
            match key_text(*key) {
                Some(text) => r is Ok && final(self)@ == old(self)@.remove(text),
                None => r == Err::<(), ApiError>(ApiError::UnexpectedKeyVariant) && final(self)@
                    == old(self)@,
            },
    {
        match key_to_str(key) {
            Ok(text) => {
                self.remove(text.as_str());
                Ok(())
            },
            Err(e) => Err(e),
        }
    }

    /// Clears the slot of a pair of identifiers.
    pub fn remove_by_vec_of_keys(&mut self, keys: (&Key, &Key))
        requires
            old(self).wf(),
        ensures
            final(self).wf(),
            final(self).spec_name() == old(self).spec_name(),
            final(self)@ == old(self)@.remove(
                pair_text(keys.0.serialised(), keys.1.serialised()),
            ),
    {
        let text = keys_to_str(keys.0, keys.1);
        self.remove(text.as_str())
    }
}

} // verus!
