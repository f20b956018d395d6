//! The records in which events are handed to the event log.

use vstd::prelude::*;
use crate::text::hex_lower;

verus! {

/// One field of an event record: its name and its value as text.
pub struct Field {
    /// The field's name.
    pub name: String,
    /// The field's value.
    pub value: String,
}

/// What a field holds.
pub open spec fn field_view(field: Field) -> (Seq<char>, Seq<char>) {
    (field.name@, field.value@)
}

/// What a record holds: its fields in order, each as name and value.
pub open spec fn record_view(record: Seq<Field>) -> Seq<(Seq<char>, Seq<char>)> {
    record.map_values(|field: Field| field_view(field))
}

/// What a log holds: its records in the order in which they were written.
pub open spec fn log_view(log: Seq<Vec<Field>>) -> Seq<Seq<(Seq<char>, Seq<char>)>> {
    log.map_values(|record: Vec<Field>| record_view(record@))
}

/// Formats the package hash with the `Display` of
/// `casper_types::ContractPackageHash`. Claims that the text is the 32 bytes
/// in lower-case hexadecimal, with nothing before or after.
#[verifier::external_body]
pub(crate) fn outside_package_text(package_hash: &[u8; 32]) -> (r: String)
    ensures
        r@ == hex_lower(package_hash@),
{
    casper_types::ContractPackageHash::new(*package_hash).to_string()
}

/// The field `name` with the value `value`.
pub(crate) fn field(name: &str, value: String) -> (r: Field)
    ensures
        field_view(r) == (name@, value@),
{
    Field { name: name.to_owned(), value }
}

/// A record of five fields, in the order given.
pub(crate) fn record_of(a: Field, b: Field, c: Field, d: Field, e: Field) -> (r: Vec<Field>)
    ensures
        record_view(r@) == seq![
            field_view(a),
            field_view(b),
            field_view(c),
            field_view(d),
            field_view(e),
        ],
{
    let mut r: Vec<Field> = Vec::new();
    r.push(a);
    r.push(b);
    r.push(c);
    r.push(d);
    r.push(e);
    assert(record_view(r@) =~= seq![
        field_view(a),
        field_view(b),
        field_view(c),
        field_view(d),
        field_view(e),
    ]);
    r
}

/// Appends `record` to `log`.
pub(crate) fn append(log: &mut Vec<Vec<Field>>, record: Vec<Field>)
    ensures
        log_view(final(log)@) == log_view(old(log)@).push(record_view(record@)),
{
    log.push(record);
    assert(log_view(log@) =~= log_view(old(log)@).push(record_view(record@)));
}

} // verus!
