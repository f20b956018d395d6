//! The byte form of the values that composite slot names are made of.

use vstd::prelude::*;
use crate::key::Key;
use crate::u256::{amount_bytes, U256};

verus! {

/// A value with a fixed serialised form.
pub trait ToBytes {
    /// The serialised form of the value.
    spec fn serialised(&self) -> Seq<u8>;

    /// Serialises the value.
    fn to_bytes(&self) -> (r: Vec<u8>)
        ensures
            r@ == self.serialised(),
    ;
}

/// Serialises the key with `casper_types::bytesrepr::ToBytes::to_bytes` of
/// `casper_types::Key`. Claims that the call succeeds and gives the tag byte
/// of the variant followed by the key's 32 bytes.
#[verifier::external_body]
fn outside_key_bytes(key: &Key) -> (r: Option<Vec<u8>>)
    ensures
        r is Some,
        r.unwrap()@ == seq![key.tag()] + key.addr(),
{
    let outside = match key {
        Key::Account(a) => casper_types::Key::Account(casper_types::account::AccountHash::new(*a)),
        Key::Hash(a) => casper_types::Key::Hash(*a),
        Key::Dictionary(a) => casper_types::Key::Dictionary(*a),
    };
    casper_types::bytesrepr::ToBytes::to_bytes(&outside).ok()
}

/// Serialises the amount with `casper_types::bytesrepr::ToBytes::to_bytes` of
/// `casper_types::U256`. Claims that the call succeeds and gives the count of
/// the amount's significant bytes followed by those bytes, least significant
/// first.
#[verifier::external_body]
fn outside_amount_bytes(a: &U256) -> (r: Option<Vec<u8>>)
    ensures
        r is Some,
        r.unwrap()@ == amount_bytes(a@),
{
    casper_types::bytesrepr::ToBytes::to_bytes(&casper_types::U256([a.w0, a.w1, a.w2, a.w3])).ok()
}

impl ToBytes for Key {
    /// The tag of the variant, then the 32 bytes.
    open spec fn serialised(&self) -> Seq<u8> {
        seq![self.tag()] + self.addr()
    }

    fn to_bytes(&self) -> (r: Vec<u8>) {
        match outside_key_bytes(self) {
            Some(bytes) => bytes,
            None => Vec::new(),
        }
    }
}

impl ToBytes for U256 {
    /// The count of the significant bytes, then those bytes, least significant first.
    open spec fn serialised(&self) -> Seq<u8> {
        amount_bytes(self@)
    }

    fn to_bytes(&self) -> (r: Vec<u8>) {
        match outside_amount_bytes(self) {
            Some(bytes) => bytes,
            None => Vec::new(),
        }
    }
}

} // verus!
