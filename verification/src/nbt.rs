//! The boundary to `fastnbt`, which parses Minecraft's NBT format.
//!
//! Nothing in this file is proved. The parsed value stays a `fastnbt::Value`;
//! the crate looks into it only through [`field`] and [`integer`], and speaks
//! of what it holds through [`nbt_content`].

use vstd::prelude::*;

verus! {

/// What an NBT value holds, as far as this crate reads it.
pub enum Nbt {
    /// A byte, short, int or long, by its value.
    Integer(int),
    /// A compound: its entries by name.
    Compound(Map<Seq<char>, Nbt>),
    /// A float, double, string, list or array.
    Other,
}

#[verifier::external_type_specification]
#[verifier::external_body]
pub struct ExValue(fastnbt::Value);

#[verifier::external_type_specification]
#[verifier::external_body]
pub struct ExNbtError(fastnbt::error::Error);

/// What `value` holds: `Integer` for the variants `Byte`, `Short`, `Int` and
/// `Long`, `Compound` for `Compound`, with the content of each entry under
/// its name, and `Other` for every other variant.
pub uninterp spec fn nbt_content(value: fastnbt::Value) -> Nbt;

/// The content of the value that `fastnbt::from_bytes` reads from `bytes`,
/// or `None` where it reports an error.
pub uninterp spec fn nbt_document(bytes: Seq<u8>) -> Option<Nbt>;

/// Calls `fastnbt::from_bytes` to read `bytes` as one `fastnbt::Value`.
///
/// Believed: the outcome depends on the bytes alone, so it has a name,
/// [`nbt_document`]. Nothing is claimed about which bytes parse.
#[verifier::external_body]
pub(crate) fn parse(bytes: &[u8]) -> (parsed: Result<fastnbt::Value, fastnbt::error::Error>)
    ensures
        match parsed {
            Ok(value) => nbt_document(bytes@) == Some(nbt_content(value)),
            Err(_) => nbt_document(bytes@) is None,
        },
{
    fastnbt::from_bytes::<fastnbt::Value>(bytes)
}

/// Looks `name` up in the map of a `fastnbt::Value::Compound`, with
/// `HashMap::get`.
///
/// Believed: the entry is handed out exactly when `value` is a compound that
/// has one under `name`; any other variant has no entries.
#[verifier::external_body]
pub(crate) fn field<'a>(value: &'a fastnbt::Value, name: &str) -> (found: Option<
    &'a fastnbt::Value,
>)
    ensures
        match found {
            Some(entry) => nbt_content(*value) matches Nbt::Compound(entries)
                && entries.contains_key(name@) && nbt_content(*entry) == entries[name@],
            None => !(nbt_content(*value) matches Nbt::Compound(entries) && entries.contains_key(
                name@,
            )),
        },
{
    match value {
        fastnbt::Value::Compound(entries) => entries.get(name),
        _ => None,
    }
}

/// Tells the integer variants of a `fastnbt::Value` from the others and
/// widens what they hold to `i64`.
///
/// Believed: a number comes back exactly for `Byte`, `Short`, `Int` and
/// `Long`, and it is the number the variant holds.
#[verifier::external_body]
pub(crate) fn integer(value: &fastnbt::Value) -> (found: Option<i64>)
    ensures
        match found {
            Some(n) => nbt_content(*value) == Nbt::Integer(n as int),
            None => !(nbt_content(*value) is Integer),
        },
{
    match value {
        fastnbt::Value::Byte(n) => Some(i64::from(*n)),
        fastnbt::Value::Short(n) => Some(i64::from(*n)),
        fastnbt::Value::Int(n) => Some(i64::from(*n)),
        fastnbt::Value::Long(n) => Some(*n),
        _ => None,
    }
}

} // verus!
