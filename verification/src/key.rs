//! Identifiers of accounts and contracts.

use vstd::prelude::*;
use crate::text::hex_lower;

verus! {

/// The identifier under which tokens are held: an account or a contract.
/// A dictionary address is a key too, but names neither.
#[derive(Clone, Copy, Debug, Eq)]
pub enum Key {
    /// A user account, by its account hash.
    Account([u8; 32]),
    /// A contract or contract package, by its hash.
    Hash([u8; 32]),
    /// The address of one slot of a dictionary.
    Dictionary([u8; 32]),
}

impl Key {
    /// The 32 bytes that the key carries.
    pub open spec fn addr(self) -> Seq<u8> {
        match self {
            Key::Account(a) => a@,
            Key::Hash(a) => a@,
            Key::Dictionary(a) => a@,
        }
    }

    /// The byte that tells the variants apart in the serialised form.
    pub open spec fn tag(self) -> u8 {
        match self {
            Key::Account(_) => 0,
            Key::Hash(_) => 1,
            Key::Dictionary(_) => 9,
        }
    }

    /// The text under which the key appears in an event record: the
    /// variant's name, then the bytes in hexadecimal between brackets.
    pub open spec fn spec_text(self) -> Seq<char> {
        match self {
            Key::Account(a) => "Key::Account("@ + hex_lower(a@) + ")"@,
            Key::Hash(a) => "Key::Hash("@ + hex_lower(a@) + ")"@,
            Key::Dictionary(a) => "Key::Dictionary("@ + hex_lower(a@) + ")"@,
        }
    }

    /// The text of the key for an event record.
    pub fn to_string(&self) -> (r: String)
        ensures
            r@ == self.spec_text(),
    {
        outside_key_text(self)
    }
}

/// Formats the key with the `Display` of `casper_types::Key`. Claims that the
/// text is the variant's name after `Key::`, then the key's 32 bytes in
/// lower-case hexadecimal between round brackets.
#[verifier::external_body]
fn outside_key_text(key: &Key) -> (r: String)
    ensures
        r@ == key.spec_text(),
{
    let outside = match key {
        Key::Account(a) => casper_types::Key::Account(casper_types::account::AccountHash::new(*a)),
        Key::Hash(a) => casper_types::Key::Hash(*a),
        Key::Dictionary(a) => casper_types::Key::Dictionary(*a),
    };
    outside.to_string()
}

/// The 32 bytes that are all zero.
pub open spec fn zero_addr() -> [u8; 32] {
    vstd::array::spec_array_fill_for_copy_type::<u8, 32>(0u8)
}

/// The zero address has 32 bytes, each of them zero.
pub proof fn lemma_zero_addr()
    ensures
        zero_addr()@ == Seq::new(32, |i: int| 0u8),
{
    vstd::array::axiom_spec_array_fill_for_copy_type::<u8, 32>(0u8);
    assert(zero_addr()@ =~= Seq::new(32, |i: int| 0u8));
}

/// Whether two 32-byte addresses hold the same bytes.
pub fn same_bytes(a: &[u8; 32], b: &[u8; 32]) -> (r: bool)
    ensures
        r == (*a == *b),
{
    let mut i: usize = 0;
    while i < 32
        invariant
            i <= 32,
            forall|k: int| 0 <= k < i ==> a@[k] == b@[k],
        decreases 32 - i,
    {
        if a[i] != b[i] {
            return false;
        }
        i += 1;
    }
    proof {
        vstd::array::axiom_array_ext_equal(*a, *b);
        assert(*a =~= *b);
    }
    true
}

impl PartialEq for Key {
    fn eq(&self, other: &Key) -> (r: bool) {
        match (self, other) {
            (Key::Account(a), Key::Account(b)) => same_bytes(a, b),
            (Key::Hash(a), Key::Hash(b)) => same_bytes(a, b),
            (Key::Dictionary(a), Key::Dictionary(b)) => same_bytes(a, b),
            _ => false,
        }
    }
}

impl vstd::std_specs::cmp::PartialEqSpecImpl for Key {
    open spec fn obeys_eq_spec() -> bool {
        true
    }

    open spec fn eq_spec(&self, other: &Key) -> bool {
        *self == *other
    }
}

/// Keys of one variant are told apart by their bytes.
pub proof fn lemma_key_by_addr(a: Key, b: Key)
    requires
        a.tag() == b.tag(),
        a.addr() == b.addr(),
    ensures
        a == b,
{
    match (a, b) {
        (Key::Account(x), Key::Account(y)) => {
            vstd::array::axiom_array_ext_equal(x, y);
            assert(x@ =~= y@);
        },
        (Key::Hash(x), Key::Hash(y)) => {
            vstd::array::axiom_array_ext_equal(x, y);
            assert(x@ =~= y@);
        },
        (Key::Dictionary(x), Key::Dictionary(y)) => {
            vstd::array::axiom_array_ext_equal(x, y);
            assert(x@ =~= y@);
        },
        _ => {},
    }
}

} // verus!
